//! Foreign declarations: what a pass emits, and how each one is written as a line of text.
use crate::error::GenError;
use crate::placeholder::slot_reference;
use crate::placeholder::Placeholder;
use crate::placeholder::PlaceholderTable;
use crate::registry::declaration_of;
use crate::registry::is_declared;
use crate::registry::BindingView;
use crate::registry::NameRegistry;
use crate::text::qualified;
use crate::text::qualify;
use vstd::prelude::*;
use vstd::string::StringExecFns;

verus! {

/// The kinds of declaration that a pass emits.
#[derive(Debug, Clone, Copy, PartialEq, Eq)]
pub enum DeclKind {
    /// A type of its own.
    Type,
    /// A synonym for a type expression.
    TypeAlias,
    /// A callable.
    Function,
    /// The opening of a nested module.
    ModuleOpen,
    /// The closing of a nested module.
    ModuleClose,
}

/// The record of one emitted declaration. It is made once and never changed.
#[derive(Debug, Clone, PartialEq, Eq)]
pub struct ForeignDeclaration {
    /// What was declared.
    pub kind: DeclKind,
    /// The qualified path of the module that the declaration was emitted in.
    pub path: String,
    /// The foreign name; for the opening or closing of a module, the name of the module.
    pub name: String,
    /// The placeholder slots that the declaration consumes, in order.
    pub placeholders: Vec<usize>,
}

/// The mathematical content of a [`ForeignDeclaration`].
pub struct DeclView {
    pub kind: DeclKind,
    pub path: Seq<char>,
    pub name: Seq<char>,
    pub placeholders: Seq<usize>,
}

impl View for ForeignDeclaration {
    type V = DeclView;

    open spec fn view(&self) -> DeclView {
        DeclView { kind: self.kind, path: self.path@, name: self.name@, placeholders: self.placeholders@ }
    }
}

/// A type expression, as it stands on the right-hand side of a synonym: a
/// placeholder slot, or a native type applied to arguments.
#[derive(Debug, PartialEq, Eq)]
pub enum TypeExpr {
    /// A placeholder slot.
    Slot(Placeholder),
    /// The native type `native`, applied to `args`; a plain type has none.
    Apply { native: String, args: Vec<TypeExpr> },
}

/// The mathematical content of a [`TypeExpr`].
pub enum TypeExprView {
    Slot(nat),
    Apply { native: Seq<char>, args: Seq<TypeExprView> },
}

/// The mathematical content of a type expression.
pub open spec fn expr_view(expr: TypeExpr) -> TypeExprView
    decreases expr, 0nat,
{
    match expr {
        TypeExpr::Slot(p) => TypeExprView::Slot(p.slot as nat),
        TypeExpr::Apply { native, args } => TypeExprView::Apply {
            native: native@,
            args: exprs_view(args@, args@.len()),
        },
    }
}

/// The mathematical content of the first `n` of the expressions `exprs`.
pub open spec fn exprs_view(exprs: Seq<TypeExpr>, n: nat) -> Seq<TypeExprView>
    decreases exprs, n,
{
    if n == 0 || n > exprs.len() {
        Seq::empty()
    } else {
        exprs_view(exprs, (n - 1) as nat).push(expr_view(exprs[n - 1]))
    }
}

impl View for TypeExpr {
    type V = TypeExprView;

    open spec fn view(&self) -> TypeExprView {
        expr_view(*self)
    }
}

/// The first `n` views hold the views of the first `n` expressions, in order.
pub proof fn lemma_exprs_view(exprs: Seq<TypeExpr>, n: nat)
    requires
        n <= exprs.len(),
    ensures
        exprs_view(exprs, n).len() == n,
        forall|i: int| 0 <= i < n ==> (#[trigger] exprs_view(exprs, n)[i]) == exprs[i]@,
    decreases n,
{
    if n > 0 {
        lemma_exprs_view(exprs, (n - 1) as nat);
    }
}

/// The slots at the positions below `n`, in order.
pub open spec fn first_slots(n: nat) -> Seq<usize> {
    Seq::new(n, |i: int| i as usize)
}

/// Every slot that `expr` refers to lies below `count`.
pub open spec fn slots_registered(expr: TypeExprView, count: nat) -> bool
    decreases expr,
{
    match expr {
        TypeExprView::Slot(slot) => slot < count,
        TypeExprView::Apply { native, args } => forall|i: int|
            0 <= i < args.len() ==> slots_registered(#[trigger] args[i], count),
    }
}

/// Every native type that `expr` names has a declaration among `entries`.
pub open spec fn natives_declared(expr: TypeExprView, entries: Seq<BindingView>) -> bool
    decreases expr,
{
    match expr {
        TypeExprView::Slot(slot) => true,
        TypeExprView::Apply { native, args } => is_declared(entries, native) && forall|i: int|
            0 <= i < args.len() ==> natives_declared(#[trigger] args[i], entries),
    }
}

/// The number of leading slots that cover every slot `expr` refers to: one more
/// than the highest position, or zero where `expr` refers to none.
pub open spec fn slot_bound(expr: TypeExprView) -> nat
    decreases expr, 0nat,
{
    match expr {
        TypeExprView::Slot(slot) => slot + 1,
        TypeExprView::Apply { native, args } => slot_bound_of_first(args, args.len()),
    }
}

/// The largest [`slot_bound`] among the first `n` of `exprs`, or zero where `n` is zero.
pub open spec fn slot_bound_of_first(exprs: Seq<TypeExprView>, n: nat) -> nat
    decreases exprs, n,
{
    if n == 0 || n > exprs.len() {
        0
    } else if slot_bound(exprs[n - 1]) >= slot_bound_of_first(exprs, (n - 1) as nat) {
        slot_bound(exprs[n - 1])
    } else {
        slot_bound_of_first(exprs, (n - 1) as nat)
    }
}

/// The texts of `items`, separated by a comma and a blank.
pub open spec fn comma_joined(items: Seq<Seq<char>>) -> Seq<char>
    decreases items.len(),
{
    if items.len() == 0 {
        Seq::empty()
    } else if items.len() == 1 {
        items[0]
    } else {
        comma_joined(items.drop_last()) + ", "@ + items.last()
    }
}

/// An argument list as it stands before the name that it is applied to: nothing
/// for no argument, the argument and a blank for one, and a parenthesised,
/// comma-separated list and a blank for more.
pub open spec fn arguments(items: Seq<Seq<char>>) -> Seq<char> {
    if items.len() == 0 {
        Seq::empty()
    } else if items.len() == 1 {
        items[0] + " "@
    } else {
        "("@ + comma_joined(items) + ") "@
    }
}

/// The generic parameters of a declaration that consumes `slots`.
pub open spec fn parameters(slots: Seq<usize>) -> Seq<char> {
    arguments(Seq::new(slots.len(), |i: int| slot_reference(slots[i] as nat)))
}

/// The qualified foreign name under which `entries` declare the native type `native`.
pub open spec fn foreign_name(entries: Seq<BindingView>, native: Seq<char>) -> Seq<char> {
    qualify(declaration_of(entries, native).path, declaration_of(entries, native).name)
}

/// The text of a type expression: a slot by its reference, a native type by its
/// qualified foreign name, behind its arguments.
pub open spec fn render_expr(expr: TypeExprView, entries: Seq<BindingView>) -> Seq<char>
    decreases expr, 0nat,
{
    match expr {
        TypeExprView::Slot(slot) => slot_reference(slot),
        TypeExprView::Apply { native, args } => arguments(render_first(args, entries, args.len()))
            + foreign_name(entries, native),
    }
}

/// The texts of the first `n` of `exprs`, in order.
pub open spec fn render_first(exprs: Seq<TypeExprView>, entries: Seq<BindingView>, n: nat) -> Seq<Seq<char>>
    decreases exprs, n,
{
    if n == 0 || n > exprs.len() {
        Seq::empty()
    } else {
        render_first(exprs, entries, (n - 1) as nat).push(render_expr(exprs[n - 1], entries))
    }
}

/// What resolving a type expression against the slots and the registry of a
/// pass yields: its text, or the reason why it cannot be written.
pub open spec fn resolve_spec(expr: TypeExprView, entries: Seq<BindingView>, count: nat) -> Result<
    Seq<char>,
    GenError,
> {
    if !slots_registered(expr, count) {
        Err(GenError::UnknownPlaceholder)
    } else if !natives_declared(expr, entries) {
        Err(GenError::UnknownTarget)
    } else {
        Ok(render_expr(expr, entries))
    }
}

/// The line that declares the type `name` of `arity` parameters in the module at `path`.
pub open spec fn type_line(path: Seq<char>, name: Seq<char>, arity: nat) -> Seq<char> {
    "type "@ + parameters(first_slots(arity)) + qualify(path, name)
}

/// The line that declares `name` in the module at `path` as a synonym for the
/// expression written `target`, over the first `bound` slots.
pub open spec fn alias_line(path: Seq<char>, name: Seq<char>, bound: nat, target: Seq<char>) -> Seq<char> {
    "type "@ + parameters(first_slots(bound)) + qualify(path, name) + " = "@ + target
}

/// The line that declares the function `name` in the module at `path`, bound to
/// the native symbol `native`.
pub open spec fn function_line(path: Seq<char>, name: Seq<char>, native: Seq<char>) -> Seq<char> {
    "external "@ + qualify(path, name) + " = \""@ + native + "\""@
}

/// The line that opens the module whose qualified path is `path`.
pub open spec fn module_open_line(path: Seq<char>) -> Seq<char> {
    "module "@ + path + " = struct"@
}

/// The line that closes a module.
pub open spec fn module_close_line() -> Seq<char> {
    "end"@
}

/// The line that carries the remark `text`.
pub open spec fn comment_line(text: Seq<char>) -> Seq<char> {
    "(** "@ + text + " *)"@
}

/// The views of a vector of texts.
pub open spec fn texts(items: Seq<String>) -> Seq<Seq<char>> {
    Seq::new(items.len(), |i: int| items[i]@)
}

impl TypeExprView {
    /// The native type `native`, without arguments.
    pub open spec fn named(native: Seq<char>) -> TypeExprView {
        TypeExprView::Apply { native, args: Seq::empty() }
    }

    /// The native type `native`, applied to `args`.
    pub open spec fn applied(native: Seq<char>, args: Seq<TypeExprView>) -> TypeExprView {
        TypeExprView::Apply { native, args }
    }
}

impl TypeExpr {
    /// The view of an application holds the views of its arguments.
    pub proof fn lemma_view_of_apply(&self)
        requires
            self is Apply,
        ensures
            self@ is Apply,
            self@->Apply_native == self->Apply_native@,
            self@->Apply_args.len() == self->Apply_args@.len(),
            forall|i: int|
                0 <= i < self->Apply_args@.len() ==> (#[trigger] self@->Apply_args[i]) == self->Apply_args@[i]@,
    {
        lemma_exprs_view(self->Apply_args@, self->Apply_args@.len());
    }

    /// The expression that is the placeholder `placeholder`.
    pub fn slot(placeholder: Placeholder) -> (expr: TypeExpr)
        ensures
            expr@ == TypeExprView::Slot(placeholder.slot as nat),
    {
        TypeExpr::Slot(placeholder)
    }

    /// The expression that is the native type `native`, without arguments.
    pub fn named(native: &str) -> (expr: TypeExpr)
        ensures
            expr@ == TypeExprView::named(native@),
    {
        let expr = TypeExpr::Apply { native: String::from_str(native), args: Vec::new() };
        assert(expr@->Apply_args =~= Seq::empty());
        expr
    }

    /// The expression that applies the native type `native` to one argument.
    pub fn apply1(native: &str, first: TypeExpr) -> (expr: TypeExpr)
        ensures
            expr@ == TypeExprView::applied(native@, seq![first@]),
    {
        let mut args: Vec<TypeExpr> = Vec::new();
        args.push(first);
        let expr = TypeExpr::Apply { native: String::from_str(native), args };
        proof {
            expr.lemma_view_of_apply();
            assert(expr@->Apply_args =~= seq![first@]);
        }
        expr
    }

    /// The expression that applies the native type `native` to two arguments.
    pub fn apply2(native: &str, first: TypeExpr, second: TypeExpr) -> (expr: TypeExpr)
        ensures
            expr@ == TypeExprView::applied(native@, seq![first@, second@]),
    {
        let mut args: Vec<TypeExpr> = Vec::new();
        args.push(first);
        args.push(second);
        let expr = TypeExpr::Apply { native: String::from_str(native), args };
        proof {
            expr.lemma_view_of_apply();
            assert(expr@->Apply_args =~= seq![first@, second@]);
        }
        expr
    }

    /// The expression that applies the native type `native` to three arguments.
    pub fn apply3(native: &str, first: TypeExpr, second: TypeExpr, third: TypeExpr) -> (expr: TypeExpr)
        ensures
            expr@ == TypeExprView::applied(native@, seq![first@, second@, third@]),
    {
        let mut args: Vec<TypeExpr> = Vec::new();
        args.push(first);
        args.push(second);
        args.push(third);
        let expr = TypeExpr::Apply { native: String::from_str(native), args };
        proof {
            expr.lemma_view_of_apply();
            assert(expr@->Apply_args =~= seq![first@, second@, third@]);
        }
        expr
    }

    /// The expression that applies the native type `native` to `args`.
    pub fn apply(native: &str, args: Vec<TypeExpr>) -> (expr: TypeExpr)
        ensures
            expr@ matches TypeExprView::Apply { native: n, args: a } && n == native@ && a.len() == args@.len()
                && forall|i: int| 0 <= i < a.len() ==> a[i] == (#[trigger] args@[i])@,
    {
        let expr = TypeExpr::Apply { native: String::from_str(native), args };
        proof {
            expr.lemma_view_of_apply();
        }
        expr
    }

    /// The number of leading slots that cover the expression, provided that every
    /// slot it refers to lies below `count`.
    #[verifier::loop_isolation(false)]
    pub fn bound_within(&self, count: usize) -> (result: Result<usize, GenError>)
        ensures
            slots_registered(self@, count as nat) ==> result == Ok::<usize, GenError>(slot_bound(self@) as usize)
                && slot_bound(self@) <= count,
            !slots_registered(self@, count as nat) ==> result == Err::<usize, GenError>(
                GenError::UnknownPlaceholder,
            ),
        decreases self,
    {
        match self {
            TypeExpr::Slot(p) => {
                if p.slot < count {
                    Ok(p.slot + 1)
                } else {
                    Err(GenError::UnknownPlaceholder)
                }
            },
            TypeExpr::Apply { native, args } => {
                proof {
                    self.lemma_view_of_apply();
                }
                let ghost views = self@->Apply_args;
                let mut bound: usize = 0;
                let mut k: usize = 0;
                while k < args.len()
                    invariant
                        k <= args.len(),
                        bound == slot_bound_of_first(views, k as nat),
                        bound <= count,
                        forall|i: int| 0 <= i < k ==> slots_registered(#[trigger] views[i], count as nat),
                    decreases args.len() - k,
                {
                    match args[k].bound_within(count) {
                        Ok(b) => {
                            if b >= bound {
                                bound = b;
                            }
                        },
                        Err(e) => {
                            assert(!slots_registered(views[k as int], count as nat));
                            return Err(e);
                        },
                    }
                    k += 1;
                }
                Ok(bound)
            },
        }
    }

    /// Tells whether `registry` holds a declaration of every native type that the
    /// expression names.
    #[verifier::loop_isolation(false)]
    pub fn natives_known(&self, registry: &NameRegistry) -> (ok: bool)
        ensures
            ok == natives_declared(self@, registry@),
        decreases self,
    {
        match self {
            TypeExpr::Slot(p) => true,
            TypeExpr::Apply { native, args } => {
                proof {
                    self.lemma_view_of_apply();
                }
                if !registry.declares(native.as_str()) {
                    return false;
                }
                let mut k: usize = 0;
                while k < args.len()
                    invariant
                        k <= args.len(),
                        forall|i: int| 0 <= i < k ==> natives_declared(#[trigger] self@->Apply_args[i], registry@),
                    decreases args.len() - k,
                {
                    if !args[k].natives_known(registry) {
                        assert(!natives_declared(self@->Apply_args[k as int], registry@));
                        return false;
                    }
                    k += 1;
                }
                true
            },
        }
    }

    #[verifier::loop_isolation(false)]
    fn render_checked(&self, registry: &NameRegistry, table: &PlaceholderTable) -> (text: String)
        requires
            table.wf(),
            slots_registered(self@, table.count()),
            natives_declared(self@, registry@),
        ensures
            text@ == render_expr(self@, registry@),
        decreases self,
    {
        match self {
            TypeExpr::Slot(p) => {
                match table.reference(p.slot) {
                    Ok(text) => text,
                    Err(_) => String::new(),
                }
            },
            TypeExpr::Apply { native, args } => {
                proof {
                    self.lemma_view_of_apply();
                }
                let ghost views = self@->Apply_args;
                let mut rendered: Vec<String> = Vec::new();
                let mut k: usize = 0;
                while k < args.len()
                    invariant
                        k <= args.len(),
                        texts(rendered@) == render_first(views, registry@, k as nat),
                    decreases args.len() - k,
                {
                    assert(slots_registered(views[k as int], table.count()));
                    assert(natives_declared(views[k as int], registry@));
                    let item = args[k].render_checked(registry, table);
                    let ghost before = texts(rendered@);
                    rendered.push(item);
                    assert(texts(rendered@) =~= before.push(item@));
                    k += 1;
                }
                let mut text = join_arguments(&rendered);
                match registry.declaration_of(native.as_str()) {
                    Some(binding) => {
                        let name = qualified(binding.path.as_str(), binding.name.as_str());
                        text.append(name.as_str());
                    },
                    None => {},
                }
                text
            },
        }
    }

    /// Writes the expression as it stands on the right-hand side of a synonym:
    /// each slot by its reference, each native type by the qualified foreign name
    /// under which `registry` declares it. An unregistered slot is reported before
    /// an undeclared type.
    pub fn render(&self, registry: &NameRegistry, table: &PlaceholderTable) -> (result: Result<String, GenError>)
        requires
            table.wf(),
        ensures
            match resolve_spec(self@, registry@, table.count()) {
                Ok(text) => result matches Ok(t) && t@ == text,
                Err(e) => result == Err::<String, GenError>(e),
            },
    {
        match self.bound_within(table.len()) {
            Err(e) => Err(e),
            Ok(_) => {
                if self.natives_known(registry) {
                    Ok(self.render_checked(registry, table))
                } else {
                    Err(GenError::UnknownTarget)
                }
            },
        }
    }
}

/// Writes an argument list as it stands before the name that it is applied to.
pub fn join_arguments(items: &Vec<String>) -> (text: String)
    ensures
        text@ == arguments(texts(items@)),
{
    let ghost views = texts(items@);
    if items.len() == 0 {
        String::new()
    } else if items.len() == 1 {
        let mut text = items[0].clone();
        text.append(" ");
        text
    } else {
        let mut text = String::from_str("(");
        let mut joined = items[0].clone();
        assert(views.take(1) =~= seq![views[0]]);
        let mut k: usize = 1;
        while k < items.len()
            invariant
                1 <= k <= items.len(),
                views == texts(items@),
                joined@ == comma_joined(views.take(k as int)),
            decreases items.len() - k,
        {
            joined.append(", ");
            joined.append(items[k].as_str());
            assert(views.take(k + 1).drop_last() =~= views.take(k as int));
            k += 1;
        }
        assert(views.take(items.len() as int) =~= views);
        text.append(joined.as_str());
        text.append(") ");
        text
    }
}

} // verus!
