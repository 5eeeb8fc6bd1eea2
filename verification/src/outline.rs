//! A static reading of scripts: an outline keeps just enough of the state of a
//! pass to tell, before a script runs, that none of its steps can fail.
use crate::decl::DeclView;
use crate::decl::natives_declared;
use crate::decl::slots_registered;
use crate::decl::TypeExprView;
use crate::error::GenError;
use crate::pass::PassView;
use crate::registry::is_bound;
use crate::registry::is_declared;
use crate::registry::BindingKind;
use crate::registry::BindingView;
use crate::scope;
use crate::scope::frame_names;
use crate::scope::path_of;
use crate::script::StepView;
use crate::text::dotted;
use crate::text::lemma_dotted_injective;
use crate::text::lemma_dotted_not_empty;
use crate::text::well_formed_name;
use crate::text::qualify;
use crate::text::well_formed_names;
use vstd::prelude::*;

verus! {

/// A list of texts, the latest first.
pub enum Texts {
    Nil,
    Cons(Seq<char>, Box<Texts>),
}

/// A list of lists of texts.
pub enum Stacks {
    Nil,
    Cons(Texts, Box<Stacks>),
}

/// A list of pairs of texts.
pub enum Pairs {
    Nil,
    Cons(Seq<char>, Seq<char>, Box<Pairs>),
}

/// The open scopes of an outline, innermost first: for each its name and the
/// names bound in it.
pub enum Frames {
    Nil,
    Cons(Seq<char>, Texts, Box<Frames>),
}

impl Texts {
    /// The list with `text` put before it.
    pub open spec fn with(self, text: Seq<char>) -> Texts {
        Texts::Cons(text, Box::new(self))
    }

    /// The list holds `text`.
    pub open spec fn has(self, text: Seq<char>) -> bool
        decreases self,
    {
        match self {
            Texts::Nil => false,
            Texts::Cons(head, tail) => head == text || tail.has(text),
        }
    }

    /// The texts of the list, the earliest first.
    pub open spec fn names(self) -> Seq<Seq<char>>
        decreases self,
    {
        match self {
            Texts::Nil => Seq::empty(),
            Texts::Cons(head, tail) => tail.names().push(head),
        }
    }

    /// The list and every list that it was grown from are among `visited`.
    pub open spec fn all_among(self, visited: Stacks) -> bool
        decreases self,
    {
        match self {
            Texts::Nil => true,
            Texts::Cons(head, tail) => visited.has(self) && tail.all_among(visited),
        }
    }
}

impl Stacks {
    /// The list with `stack` put before it.
    pub open spec fn with(self, stack: Texts) -> Stacks {
        Stacks::Cons(stack, Box::new(self))
    }

    /// The list holds `stack`.
    pub open spec fn has(self, stack: Texts) -> bool
        decreases self,
    {
        match self {
            Stacks::Nil => false,
            Stacks::Cons(head, tail) => head == stack || tail.has(stack),
        }
    }
}

impl Pairs {
    /// The list with the pair of `first` and `second` put before it.
    pub open spec fn with(self, first: Seq<char>, second: Seq<char>) -> Pairs {
        Pairs::Cons(first, second, Box::new(self))
    }

    /// The list holds the pair of `first` and `second`.
    pub open spec fn has(self, first: Seq<char>, second: Seq<char>) -> bool
        decreases self,
    {
        match self {
            Pairs::Nil => false,
            Pairs::Cons(a, b, tail) => (a == first && b == second) || tail.has(first, second),
        }
    }
}

impl Frames {
    /// No scope of the list has the qualified path `path`.
    pub open spec fn no_path(self, path: Seq<char>) -> bool
        decreases self,
    {
        match self {
            Frames::Nil => true,
            Frames::Cons(name, bound, rest) => dotted(self.names()) != path && rest.no_path(path),
        }
    }

    /// The names of the scopes, outermost first.
    pub open spec fn names(self) -> Seq<Seq<char>>
        decreases self,
    {
        match self {
            Frames::Nil => Seq::empty(),
            Frames::Cons(name, bound, rest) => rest.names().push(name),
        }
    }

    /// For each scope, every entry of `entries` that lies in it binds a name
    /// that the outline holds for that scope.
    pub open spec fn covers(self, entries: Seq<BindingView>) -> bool
        decreases self,
    {
        match self {
            Frames::Nil => true,
            Frames::Cons(name, bound, rest) => {
                &&& forall|i: int|
                    0 <= i < entries.len() && (#[trigger] entries[i]).path == dotted(self.names()) ==> bound.has(
                        entries[i].name,
                    )
                &&& rest.covers(entries)
            },
        }
    }
}

/// No character of `name` from position `i` on is a separator.
pub open spec fn no_separator_from(name: Seq<char>, i: nat) -> bool
    decreases name.len() - i,
{
    if i >= name.len() {
        true
    } else {
        name[i as int] != '.' && no_separator_from(name, i + 1)
    }
}

/// The texts `a` and `b` differ at a position, from `i` on, that both have.
pub open spec fn differ_from(a: Seq<char>, b: Seq<char>, i: nat) -> bool
    decreases a.len() - i,
{
    if i >= a.len() || i >= b.len() {
        false
    } else {
        a[i as int] != b[i as int] || differ_from(a, b, i + 1)
    }
}

/// Every slot of `expr` lies below `slots`, and every native type that it
/// names is among `declared`.
pub open spec fn resolvable(expr: TypeExprView, declared: Texts, slots: nat) -> bool
    decreases expr, 0nat,
{
    match expr {
        TypeExprView::Slot(slot) => slot < slots,
        TypeExprView::Apply { native, args } => declared.has(native) && resolvable_first(
            args,
            args.len(),
            declared,
            slots,
        ),
    }
}

/// The first `n` of `exprs` are [`resolvable`].
pub open spec fn resolvable_first(exprs: Seq<TypeExprView>, n: nat, declared: Texts, slots: nat) -> bool
    decreases exprs, n,
{
    if n == 0 || n > exprs.len() {
        true
    } else {
        resolvable_first(exprs, (n - 1) as nat, declared, slots) && resolvable(exprs[n - 1], declared, slots)
    }
}

/// What a static reading keeps of the state of a pass.
pub struct Outline {
    /// The open scopes, innermost first.
    pub frames: Frames,
    /// The names of the open scopes, innermost first.
    pub stack: Texts,
    /// Every stack of names that was open at some point.
    pub visited: Stacks,
    /// Native types that were declared.
    pub declared: Texts,
    /// The name of the outermost scope.
    pub root: Seq<char>,
    /// The names taken over from outside the outermost scope, each with its path.
    pub imports: Pairs,
    /// The number of placeholder slots.
    pub slots: nat,
}

impl Outline {
    /// The outline of a pass that has entered its outermost scope `root` and
    /// done nothing else.
    pub open spec fn entered(root: Seq<char>, slots: nat) -> Outline {
        let stack = Texts::Cons(root, Box::new(Texts::Nil));
        Outline {
            frames: Frames::Cons(root, Texts::Nil, Box::new(Frames::Nil)),
            stack,
            visited: Stacks::Cons(stack, Box::new(Stacks::Nil)),
            declared: Texts::Nil,
            root,
            imports: Pairs::Nil,
            slots,
        }
    }

    /// The outermost scope is the one scope that is open or was open, and no
    /// name is bound in it yet.
    pub open spec fn at_root(self) -> bool {
        &&& self.frames == Frames::Cons(self.root, Texts::Nil, Box::new(Frames::Nil))
        &&& self.stack == Texts::Nil.with(self.root)
        &&& self.visited == Stacks::Nil.with(self.stack)
    }

    /// The outline after `name` was bound in the innermost scope, if it is
    /// sure that it can be.
    pub open spec fn bind(self, name: Seq<char>) -> Option<Outline> {
        match self.frames {
            Frames::Nil => None,
            Frames::Cons(scope, bound, rest) => if name.len() > 0 && no_separator_from(name, 0) && !bound.has(
                name,
            ) {
                Some(Outline { frames: Frames::Cons(scope, Texts::Cons(name, Box::new(bound)), rest), ..self })
            } else {
                None
            },
        }
    }

    /// The outline after one step, if the step is sure to succeed.
    pub open spec fn accept(self, step: StepView) -> Option<Outline> {
        match step {
            StepView::Header => Some(self),
            StepView::Comment { text } => Some(self),
            StepView::Type { native, name, arity } => if arity <= self.slots {
                match self.bind(name) {
                    Some(next) => Some(Outline { declared: Texts::Cons(native, Box::new(next.declared)), ..next }),
                    None => None,
                }
            } else {
                None
            },
            StepView::Function { native, name } => self.bind(name),
            StepView::Alias { name, target } => if target is Apply && resolvable(
                target,
                self.declared,
                self.slots,
            ) {
                self.bind(name)
            } else {
                None
            },
            StepView::OpenModule { name } => {
                let opened = Texts::Cons(name, Box::new(self.stack));
                if self.frames !is Nil && name.len() > 0 && no_separator_from(name, 0) && !self.visited.has(opened) {
                    Some(
                        Outline {
                            frames: Frames::Cons(name, Texts::Nil, Box::new(self.frames)),
                            stack: opened,
                            visited: Stacks::Cons(opened, Box::new(self.visited)),
                            ..self
                        },
                    )
                } else {
                    None
                }
            },
            StepView::CloseModule => match self.frames {
                Frames::Cons(_, _, rest) => match self.stack {
                    Texts::Cons(_, below) => if *rest !is Nil {
                        Some(Outline { frames: *rest, stack: *below, ..self })
                    } else {
                        None
                    },
                    Texts::Nil => None,
                },
                Frames::Nil => None,
            },
            StepView::Import { path, native, name, arity } => if differ_from(path, self.root, 0)
                && !self.imports.has(path, name) {
                Some(
                    Outline {
                        imports: Pairs::Cons(path, name, Box::new(self.imports)),
                        declared: Texts::Cons(native, Box::new(self.declared)),
                        ..self
                    },
                )
            } else {
                None
            },
            StepView::Enter { name } => None,
            StepView::Exit => None,
        }
    }

    /// The outline after the steps of `steps` from position `i` on, if every
    /// one of them is sure to succeed.
    pub open spec fn accept_from(self, steps: Seq<StepView>, i: nat) -> Option<Outline>
        decreases steps.len() - i,
    {
        if i >= steps.len() {
            Some(self)
        } else {
            match self.accept(steps[i as int]) {
                Some(next) => next.accept_from(steps, i + 1),
                None => None,
            }
        }
    }

    /// The entry lies inside the outermost scope, in a scope that was open at
    /// some point.
    pub open spec fn holds_inside(self, entry: BindingView) -> bool {
        exists|v: Texts| #[trigger] self.visited.has(v) && entry.path == dotted(v.names())
    }

    /// The entry was taken over from outside the outermost scope.
    pub open spec fn holds_outside(self, entry: BindingView) -> bool {
        differ_from(entry.path, self.root, 0) && self.imports.has(entry.path, entry.name)
    }

    /// Every stack among the visited ones is made of well-formed names and
    /// starts at the outermost scope.
    pub open spec fn visited_well_formed(self) -> bool {
        forall|v: Texts| #[trigger]
            self.visited.has(v) ==> well_formed_names(v.names()) && v.names().len() > 0 && v.names()[0]
                == self.root
    }

    /// The outline is a faithful reading of the state `pass`.
    pub open spec fn describes(self, pass: PassView) -> bool {
        &&& scope::well_formed(pass.frames)
        &&& frame_names(pass.frames) == self.stack.names()
        &&& self.frames.names() == self.stack.names()
        &&& self.stack.names().len() > 0
        &&& self.stack.names()[0] == self.root
        &&& pass.slots == self.slots
        &&& self.visited_well_formed()
        &&& self.stack.all_among(self.visited)
        &&& forall|i: int|
            0 <= i < pass.entries.len() ==> self.holds_inside(#[trigger] pass.entries[i]) || self.holds_outside(
                pass.entries[i],
            )
        &&& self.frames.covers(pass.entries)
        &&& forall|native: Seq<char>| #[trigger] self.declared.has(native) ==> is_declared(pass.entries, native)
    }
}

/// The text `text` starts with the text `prefix`.
pub open spec fn starts_with(text: Seq<char>, prefix: Seq<char>) -> bool {
    text.len() >= prefix.len() && forall|j: int| 0 <= j < prefix.len() ==> text[j] == prefix[j]
}

/// A name without a separator from its first character on is well formed.
pub proof fn lemma_no_separator(name: Seq<char>, i: nat)
    requires
        no_separator_from(name, i),
    ensures
        forall|j: int| i <= j < name.len() ==> name[j] != '.',
        i == 0 && name.len() > 0 ==> well_formed_name(name),
    decreases name.len() - i,
{
    if i < name.len() {
        lemma_no_separator(name, i + 1);
    }
}

/// Two texts that differ at a common position differ there.
proof fn lemma_differ_witness(a: Seq<char>, b: Seq<char>, i: nat) -> (j: int)
    requires
        differ_from(a, b, i),
    ensures
        i <= j < a.len(),
        j < b.len(),
        a[j] != b[j],
    decreases a.len() - i,
{
    if a[i as int] != b[i as int] {
        i as int
    } else {
        lemma_differ_witness(a, b, i + 1)
    }
}

/// The path of well-formed names starts with the first of them.
proof fn lemma_dotted_starts(names: Seq<Seq<char>>)
    requires
        well_formed_names(names),
        names.len() > 0,
    ensures
        starts_with(dotted(names), names[0]),
    decreases names.len(),
{
    if names.len() > 1 {
        let front = names.drop_last();
        assert forall|i: int| 0 <= i < front.len() implies well_formed_name(#[trigger] front[i]) by {
            assert(front[i] == names[i]);
        }
        lemma_dotted_starts(front);
        lemma_dotted_not_empty(front);
        assert(front[0] == names[0]);
        let text = dotted(names);
        assert(text == dotted(front) + "."@ + names.last());
        assert forall|j: int| 0 <= j < names[0].len() implies text[j] == names[0][j] by {
            assert(text[j] == dotted(front)[j]);
        }
    } else {
        assert(names.drop_last() =~= Seq::<Seq<char>>::empty());
        assert(dotted(names.drop_last()).len() == 0);
        assert(names.last() == names[0]);
        assert(dotted(names) == names[0]);
    }
}

/// A path that differs from the outermost scope at a common position is the
/// path of no stack that starts at the outermost scope.
proof fn lemma_differ_not_dotted(path: Seq<char>, root: Seq<char>, names: Seq<Seq<char>>)
    requires
        differ_from(path, root, 0),
        well_formed_names(names),
        names.len() > 0,
        names[0] == root,
    ensures
        path != dotted(names),
{
    let j = lemma_differ_witness(path, root, 0);
    lemma_dotted_starts(names);
    assert(dotted(names)[j] == root[j]);
}

/// A list of texts is told by its texts.
proof fn lemma_names_injective(a: Texts, b: Texts)
    requires
        a.names() == b.names(),
    ensures
        a == b,
    decreases a,
{
    match a {
        Texts::Nil => {
            match b {
                Texts::Nil => {},
                Texts::Cons(head, tail) => {
                    assert(b.names().len() > 0);
                },
            }
        },
        Texts::Cons(head, tail) => {
            match b {
                Texts::Nil => {
                    assert(a.names().len() > 0);
                },
                Texts::Cons(other_head, other_tail) => {
                    assert(a.names().last() == head);
                    assert(b.names().last() == other_head);
                    assert(a.names().drop_last() =~= tail.names());
                    assert(b.names().drop_last() =~= other_tail.names());
                    lemma_names_injective(*tail, *other_tail);
                },
            }
        },
    }
}

/// A resolvable expression has its slots registered and its native types
/// declared, where every type that the outline holds as declared is declared.
proof fn lemma_resolvable(expr: TypeExprView, declared: Texts, slots: nat, entries: Seq<BindingView>)
    requires
        resolvable(expr, declared, slots),
        forall|native: Seq<char>| #[trigger] declared.has(native) ==> is_declared(entries, native),
    ensures
        slots_registered(expr, slots),
        natives_declared(expr, entries),
    decreases expr, 0nat,
{
    match expr {
        TypeExprView::Slot(slot) => {},
        TypeExprView::Apply { native, args } => {
            lemma_resolvable_first(args, args.len(), declared, slots, entries);
        },
    }
}

/// The first `n` of resolvable expressions have their slots registered and
/// their native types declared.
proof fn lemma_resolvable_first(
    exprs: Seq<TypeExprView>,
    n: nat,
    declared: Texts,
    slots: nat,
    entries: Seq<BindingView>,
)
    requires
        n <= exprs.len(),
        resolvable_first(exprs, n, declared, slots),
        forall|native: Seq<char>| #[trigger] declared.has(native) ==> is_declared(entries, native),
    ensures
        forall|i: int| 0 <= i < n ==> slots_registered(#[trigger] exprs[i], slots),
        forall|i: int| 0 <= i < n ==> natives_declared(#[trigger] exprs[i], entries),
    decreases exprs, n,
{
    if n > 0 {
        lemma_resolvable_first(exprs, (n - 1) as nat, declared, slots, entries);
        lemma_resolvable(exprs[n - 1], declared, slots, entries);
    }
}

/// An entry whose path is that of no scope of the list leaves the list
/// covering the entries.
proof fn lemma_covers_push_elsewhere(frames: Frames, entries: Seq<BindingView>, added: BindingView)
    requires
        frames.covers(entries),
        frames.no_path(added.path),
    ensures
        frames.covers(entries.push(added)),
    decreases frames,
{
    match frames {
        Frames::Nil => {},
        Frames::Cons(name, bound, rest) => {
            lemma_covers_push_elsewhere(*rest, entries, added);
            let longer = entries.push(added);
            assert forall|i: int|
                0 <= i < longer.len() && (#[trigger] longer[i]).path == dotted(frames.names()) implies bound.has(
                longer[i].name,
            ) by {
                if i < entries.len() {
                    assert(longer[i] == entries[i]);
                }
            }
        },
    }
}

/// The path of a stack of well-formed names is the path of no scope of a
/// shorter list.
proof fn lemma_no_path_shorter(frames: Frames, names: Seq<Seq<char>>)
    requires
        well_formed_names(names),
        well_formed_names(frames.names()),
        frames.names().len() < names.len(),
    ensures
        frames.no_path(dotted(names)),
    decreases frames,
{
    match frames {
        Frames::Nil => {},
        Frames::Cons(name, bound, rest) => {
            assert(frames.names().drop_last() =~= rest.names());
            assert forall|i: int| 0 <= i < rest.names().len() implies well_formed_name(
                #[trigger] rest.names()[i],
            ) by {
                assert(rest.names()[i] == frames.names()[i]);
            }
            lemma_no_path_shorter(*rest, names);
            if dotted(frames.names()) == dotted(names) {
                lemma_dotted_injective(frames.names(), names);
            }
        },
    }
}

/// A path that differs from the outermost scope at a common position is the
/// path of no scope of a list that starts at the outermost scope.
proof fn lemma_no_path_outside(frames: Frames, path: Seq<char>, root: Seq<char>)
    requires
        differ_from(path, root, 0),
        well_formed_names(frames.names()),
        frames.names().len() > 0 ==> frames.names()[0] == root,
    ensures
        frames.no_path(path),
    decreases frames,
{
    match frames {
        Frames::Nil => {},
        Frames::Cons(name, bound, rest) => {
            assert(frames.names().drop_last() =~= rest.names());
            assert forall|i: int| 0 <= i < rest.names().len() implies well_formed_name(
                #[trigger] rest.names()[i],
            ) by {
                assert(rest.names()[i] == frames.names()[i]);
            }
            if rest.names().len() > 0 {
                assert(rest.names()[0] == frames.names()[0]);
            }
            lemma_no_path_outside(*rest, path, root);
            lemma_differ_not_dotted(path, root, frames.names());
        },
    }
}

/// A type that is declared stays declared when an entry is added.
proof fn lemma_declared_stays(entries: Seq<BindingView>, added: BindingView, native: Seq<char>)
    requires
        is_declared(entries, native),
    ensures
        is_declared(entries.push(added), native),
{
    let i = choose|i: int| 0 <= i < entries.len() && (#[trigger] entries[i]).declares(native);
    assert(entries.push(added)[i] == entries[i]);
}

/// The names of the frames of a well-formed stack are well formed.
proof fn lemma_frame_names_well_formed(frames: Seq<scope::FrameView>)
    requires
        scope::well_formed(frames),
    ensures
        well_formed_names(frame_names(frames)),
{
    assert forall|i: int| 0 <= i < frame_names(frames).len() implies well_formed_name(
        #[trigger] frame_names(frames)[i],
    ) by {
        assert(frame_names(frames)[i] == frames[i].name);
    }
}

/// A stack that is among the visited ones, with all that it grew from, stays so
/// when another stack is visited.
proof fn lemma_all_among_grows(stack: Texts, visited: Stacks, added: Texts)
    requires
        stack.all_among(visited),
    ensures
        stack.all_among(Stacks::Cons(added, Box::new(visited))),
    decreases stack,
{
    match stack {
        Texts::Nil => {},
        Texts::Cons(head, tail) => {
            lemma_all_among_grows(*tail, visited, added);
        },
    }
}

/// Writing a line changes nothing that an outline reads.
proof fn lemma_write_described(outline: Outline, pass: PassView, line: Seq<char>)
    requires
        outline.describes(pass),
    ensures
        outline.describes(pass.write(line)),
{
}

/// Recording a declaration changes nothing that an outline reads.
proof fn lemma_record_described(outline: Outline, pass: PassView, decl: DeclView)
    requires
        outline.describes(pass),
    ensures
        outline.describes(pass.record(decl)),
        pass.record(decl).path() == pass.path(),
{
    if pass.frames.len() > 0 {
        scope::lemma_record_keeps_well_formed(pass.frames, decl);
        assert(frame_names(pass.record(decl).frames) =~= frame_names(pass.frames));
    }
}

/// Where the outline lets a name be bound in the innermost scope, a scope is
/// open, the name is well formed and free, and the outline with the name
/// reads the pass with the binding.
proof fn lemma_bind_described(outline: Outline, pass: PassView, binding: BindingView)
    requires
        outline.describes(pass),
        outline.bind(binding.name) is Some,
        binding.path == pass.path(),
    ensures
        pass.frames.len() > 0,
        well_formed_name(binding.name),
        !is_bound(pass.entries, pass.path(), binding.name),
        outline.bind(binding.name)->Some_0.describes(pass.bind(binding)),
{
    let next = outline.bind(binding.name)->Some_0;
    let name = binding.name;
    let names = outline.stack.names();
    let after = pass.bind(binding);
    lemma_no_separator(name, 0);
    lemma_frame_names_well_formed(pass.frames);
    match outline.frames {
        Frames::Nil => {},
        Frames::Cons(scope, bound, rest) => {
            assert(next.frames.names() == outline.frames.names());
            if is_bound(pass.entries, pass.path(), name) {
                let i = choose|i: int|
                    0 <= i < pass.entries.len() && (#[trigger] pass.entries[i]).has_key(pass.path(), name);
                assert(pass.entries[i].path == dotted(outline.frames.names()));
                assert(bound.has(pass.entries[i].name));
            }
            assert(names.drop_last() =~= rest.names());
            assert forall|i: int| 0 <= i < rest.names().len() implies well_formed_name(
                #[trigger] rest.names()[i],
            ) by {
                assert(rest.names()[i] == names[i]);
            }
            lemma_no_path_shorter(*rest, names);
            lemma_covers_push_elsewhere(*rest, pass.entries, binding);
            assert forall|i: int|
                0 <= i < after.entries.len() && (#[trigger] after.entries[i]).path == dotted(
                    next.frames.names(),
                ) implies Texts::Cons(name, Box::new(bound)).has(after.entries[i].name) by {
                if i < pass.entries.len() {
                    assert(after.entries[i] == pass.entries[i]);
                }
            }
            assert(next.frames.covers(after.entries));
        },
    }
    assert(outline.visited.has(outline.stack));
    assert forall|i: int| 0 <= i < after.entries.len() implies next.holds_inside(#[trigger] after.entries[i])
        || next.holds_outside(after.entries[i]) by {
        if i < pass.entries.len() {
            assert(after.entries[i] == pass.entries[i]);
            assert(outline.holds_inside(pass.entries[i]) || outline.holds_outside(pass.entries[i]));
        }
    }
    assert forall|native: Seq<char>| #[trigger] next.declared.has(native) implies is_declared(
        after.entries,
        native,
    ) by {
        lemma_declared_stays(pass.entries, binding, native);
    }
}

/// Where the latest entry declares a native type, the outline may hold the
/// type as declared.
proof fn lemma_declared_described(outline: Outline, pass: PassView, native: Seq<char>)
    requires
        outline.describes(pass),
        pass.entries.len() > 0,
        pass.entries.last().declares(native),
    ensures
        (Outline { declared: Texts::Cons(native, Box::new(outline.declared)), ..outline }).describes(pass),
{
    let next = Outline { declared: Texts::Cons(native, Box::new(outline.declared)), ..outline };
    assert forall|i: int| 0 <= i < pass.entries.len() implies next.holds_inside(#[trigger] pass.entries[i])
        || next.holds_outside(pass.entries[i]) by {
        assert(outline.holds_inside(pass.entries[i]) || outline.holds_outside(pass.entries[i]));
    }
    assert forall|other: Seq<char>| #[trigger] next.declared.has(other) implies is_declared(
        pass.entries,
        other,
    ) by {
        if other != native {
            assert(outline.declared.has(other));
        }
    }
}

/// Where the outline lets a module be opened, the pass opens it, and the
/// outline with the module open reads the pass after.
proof fn lemma_open_described(outline: Outline, pass: PassView, name: Seq<char>)
    requires
        outline.describes(pass),
        outline.accept(StepView::OpenModule { name }) is Some,
    ensures
        pass.open_module(name) is Ok,
        outline.accept(StepView::OpenModule { name })->Some_0.describes(pass.open_module(name)->Ok_0),
{
    let next = outline.accept(StepView::OpenModule { name })->Some_0;
    let opened = Texts::Cons(name, Box::new(outline.stack));
    let opening = DeclView {
        kind: crate::decl::DeclKind::ModuleOpen,
        path: pass.path(),
        name,
        placeholders: Seq::empty(),
    };
    let recorded = pass.record(opening);
    lemma_no_separator(name, 0);
    lemma_record_described(outline, pass, opening);
    let entered = recorded.enter(name)->Ok_0;
    scope::lemma_enter_keeps_well_formed(recorded.frames, name);
    assert(frame_names(entered.frames) =~= frame_names(recorded.frames).push(name));
    lemma_frame_names_well_formed(recorded.frames);
    lemma_frame_names_well_formed(entered.frames);
    let names = next.stack.names();
    assert(names == outline.stack.names().push(name));
    assert(names[0] == outline.stack.names()[0]);
    assert forall|v: Texts| #[trigger] next.visited.has(v) implies well_formed_names(v.names()) && v.names().len()
        > 0 && v.names()[0] == next.root by {
        if v != opened {
            assert(outline.visited.has(v));
        }
    }
    lemma_all_among_grows(outline.stack, outline.visited, opened);
    assert forall|i: int| 0 <= i < entered.entries.len() implies next.holds_inside(
        #[trigger] entered.entries[i],
    ) || next.holds_outside(entered.entries[i]) by {
        let entry = pass.entries[i];
        assert(outline.holds_inside(entry) || outline.holds_outside(entry));
        if outline.holds_inside(entry) {
            let v = choose|v: Texts| #[trigger] outline.visited.has(v) && entry.path == dotted(v.names());
            assert(next.visited.has(v));
        }
    }
    assert forall|i: int|
        0 <= i < entered.entries.len() && (#[trigger] entered.entries[i]).path == dotted(
            next.frames.names(),
        ) implies Texts::Nil.has(entered.entries[i].name) by {
        let entry = pass.entries[i];
        assert(outline.holds_inside(entry) || outline.holds_outside(entry));
        if outline.holds_inside(entry) {
            let v = choose|v: Texts| #[trigger] outline.visited.has(v) && entry.path == dotted(v.names());
            lemma_dotted_injective(v.names(), names);
            lemma_names_injective(v, opened);
        } else {
            lemma_differ_not_dotted(entry.path, outline.root, names);
        }
    }
    assert(next.describes(entered));
    lemma_write_described(next, entered, crate::decl::module_open_line(entered.path()));
}

/// Where the outline lets a module be closed, the pass closes it, and the
/// outline with the module closed reads the pass after.
proof fn lemma_close_described(outline: Outline, pass: PassView)
    requires
        outline.describes(pass),
        outline.accept(StepView::CloseModule) is Some,
    ensures
        pass.close_module() is Ok,
        outline.accept(StepView::CloseModule)->Some_0.describes(pass.close_module()->Ok_0),
{
    let next = outline.accept(StepView::CloseModule)->Some_0;
    let left = pass.exit()->Ok_0;
    scope::lemma_exit_keeps_well_formed(pass.frames);
    assert(frame_names(left.frames) =~= frame_names(pass.frames).drop_last());
    assert(outline.stack.names().drop_last() =~= next.stack.names());
    assert(outline.frames.names().drop_last() =~= next.frames.names());
    assert(next.frames.names().len() > 0);
    assert(next.stack.names()[0] == outline.stack.names()[0]);
    assert forall|i: int| 0 <= i < left.entries.len() implies next.holds_inside(#[trigger] left.entries[i])
        || next.holds_outside(left.entries[i]) by {
        assert(outline.holds_inside(pass.entries[i]) || outline.holds_outside(pass.entries[i]));
    }
    assert(next.describes(left));
    let closing = DeclView {
        kind: crate::decl::DeclKind::ModuleClose,
        path: left.path(),
        name: pass.frames.last().name,
        placeholders: Seq::empty(),
    };
    lemma_record_described(next, left, closing);
    lemma_write_described(next, left.record(closing), crate::decl::module_close_line());
}

/// Where the outline lets a type be taken over from outside, the pass takes
/// it over, and the outline with the type reads the pass after.
proof fn lemma_import_described(
    outline: Outline,
    pass: PassView,
    path: Seq<char>,
    native: Seq<char>,
    name: Seq<char>,
    arity: nat,
)
    requires
        outline.describes(pass),
        outline.accept(StepView::Import { path, native, name, arity }) is Some,
    ensures
        pass.import_type(path, native, name, arity) is Ok,
        outline.accept(StepView::Import { path, native, name, arity })->Some_0.describes(
            pass.import_type(path, native, name, arity)->Ok_0,
        ),
{
    let next = outline.accept(StepView::Import { path, native, name, arity })->Some_0;
    let added = BindingView { path, name, native, arity, kind: BindingKind::Type };
    let after = PassView { entries: pass.entries.push(added), ..pass };
    lemma_frame_names_well_formed(pass.frames);
    if is_bound(pass.entries, path, name) {
        let i = choose|i: int| 0 <= i < pass.entries.len() && (#[trigger] pass.entries[i]).has_key(path, name);
        let entry = pass.entries[i];
        assert(outline.holds_inside(entry) || outline.holds_outside(entry));
        if outline.holds_inside(entry) {
            let v = choose|v: Texts| #[trigger] outline.visited.has(v) && entry.path == dotted(v.names());
            lemma_differ_not_dotted(path, outline.root, v.names());
        }
    }
    lemma_no_path_outside(outline.frames, path, outline.root);
    lemma_covers_push_elsewhere(outline.frames, pass.entries, added);
    assert forall|i: int| 0 <= i < after.entries.len() implies next.holds_inside(#[trigger] after.entries[i])
        || next.holds_outside(after.entries[i]) by {
        if i < pass.entries.len() {
            let entry = pass.entries[i];
            assert(after.entries[i] == entry);
            assert(outline.holds_inside(entry) || outline.holds_outside(entry));
        }
    }
    assert forall|other: Seq<char>| #[trigger] next.declared.has(other) implies is_declared(
        after.entries,
        other,
    ) by {
        if other == native {
            assert(after.entries[pass.entries.len() as int].declares(native));
        } else {
            assert(outline.declared.has(other));
            lemma_declared_stays(pass.entries, added, other);
        }
    }
}

/// A step that the outline accepts succeeds, and the outline after the step
/// reads the pass after the step.
pub proof fn lemma_accepted_step(outline: Outline, pass: PassView, step: StepView)
    requires
        outline.describes(pass),
        outline.accept(step) is Some,
    ensures
        pass.step(step) is Ok,
        outline.accept(step)->Some_0.describes(pass.step(step)->Ok_0),
{
    let next = outline.accept(step)->Some_0;
    match step {
        StepView::Header => {
            lemma_write_described(outline, pass, crate::pass::header_line());
        },
        StepView::Comment { text } => {
            lemma_write_described(outline, pass, crate::decl::comment_line(text));
        },
        StepView::Type { native, name, arity } => {
            let binding = BindingView { path: pass.path(), name, native, arity, kind: BindingKind::Type };
            lemma_bind_described(outline, pass, binding);
            let bound = pass.bind(binding);
            lemma_declared_described(outline.bind(name)->Some_0, bound, native);
            let after = pass.step(step)->Ok_0;
            let decl = after.frames.last().declarations.last();
            lemma_record_described(next, bound, decl);
            lemma_write_described(next, bound.record(decl), after.lines.last());
            assert(after =~= bound.record(decl).write(after.lines.last()));
        },
        StepView::Function { native, name } => {
            let binding = BindingView { path: pass.path(), name, native, arity: 0, kind: BindingKind::Function };
            lemma_bind_described(outline, pass, binding);
            let bound = pass.bind(binding);
            let after = pass.step(step)->Ok_0;
            let decl = after.frames.last().declarations.last();
            lemma_record_described(next, bound, decl);
            lemma_write_described(next, bound.record(decl), after.lines.last());
            assert(after =~= bound.record(decl).write(after.lines.last()));
        },
        StepView::Alias { name, target } => {
            lemma_resolvable(target, outline.declared, outline.slots, pass.entries);
            let binding = BindingView {
                path: pass.path(),
                name,
                native: target->Apply_native,
                arity: crate::registry::declaration_of(pass.entries, target->Apply_native).arity,
                kind: BindingKind::Alias,
            };
            lemma_bind_described(outline, pass, binding);
            let bound = pass.bind(binding);
            let after = pass.step(step)->Ok_0;
            let decl = after.frames.last().declarations.last();
            lemma_record_described(next, bound, decl);
            lemma_write_described(next, bound.record(decl), after.lines.last());
            assert(after =~= bound.record(decl).write(after.lines.last()));
        },
        StepView::OpenModule { name } => {
            lemma_open_described(outline, pass, name);
        },
        StepView::CloseModule => {
            lemma_close_described(outline, pass);
        },
        StepView::Import { path, native, name, arity } => {
            lemma_import_described(outline, pass, path, native, name, arity);
        },
        StepView::Enter { name } => {},
        StepView::Exit => {},
    }
}

/// A script that the outline accepts runs to its end without an error, and
/// the outline after the script reads the pass after the script.
pub proof fn lemma_accepted_script(outline: Outline, pass: PassView, steps: Seq<StepView>, i: nat)
    requires
        outline.describes(pass),
        i <= steps.len(),
        outline.accept_from(steps, i) is Some,
    ensures
        pass.run(steps.skip(i as int)).1 is None,
        outline.accept_from(steps, i)->Some_0.describes(pass.run(steps.skip(i as int)).0),
    decreases steps.len() - i,
{
    let rest = steps.skip(i as int);
    if i < steps.len() {
        assert(rest[0] == steps[i as int]);
        assert(rest.drop_first() =~= steps.skip(i as int + 1));
        lemma_accepted_step(outline, pass, steps[i as int]);
        lemma_accepted_script(
            outline.accept(steps[i as int])->Some_0,
            pass.step(steps[i as int])->Ok_0,
            steps,
            i + 1,
        );
    }
}

/// The outline of a pass that has entered its outermost scope reads the state
/// of a pass that has done so, whether it wrote the opening of the scope or not.
pub proof fn lemma_entered_described(start: PassView, root: Seq<char>, nested: bool)
    requires
        start.frames.len() == 0,
        start.entries.len() == 0,
        well_formed_name(root),
    ensures
        start.open_module(root) is Ok,
        start.enter(root) is Ok,
        Outline::entered(root, start.slots).describes(
            if nested {
                start.open_module(root)->Ok_0
            } else {
                start.enter(root)->Ok_0
            },
        ),
{
    reveal_with_fuel(Texts::names, 2);
    reveal_with_fuel(Frames::names, 2);
    reveal_with_fuel(Stacks::has, 2);
    reveal_with_fuel(Texts::all_among, 2);
    reveal_with_fuel(Frames::covers, 2);
    let outline = Outline::entered(root, start.slots);
    let entered = start.enter(root)->Ok_0;
    scope::lemma_enter_keeps_well_formed(start.frames, root);
    assert(frame_names(start.frames) =~= Seq::<Seq<char>>::empty());
    assert(frame_names(entered.frames) =~= seq![root]);
    assert(outline.stack.names() =~= seq![root]);
    assert(outline.frames.names() =~= seq![root]);
    assert forall|v: Texts| #[trigger] outline.visited.has(v) implies well_formed_names(v.names()) && v.names().len()
        > 0 && v.names()[0] == outline.root by {
        assert(v == outline.stack);
    }
    assert(outline.describes(entered));
    if nested {
        let opened = start.open_module(root)->Ok_0;
        assert(opened == entered.write(crate::decl::module_open_line(entered.path())));
        lemma_write_described(outline, entered, crate::decl::module_open_line(entered.path()));
    }
}

/// A pass that an outline with one open scope reads has one open scope, and
/// can leave it, with its closing written or not; no scope is open after.
pub proof fn lemma_described_leaves(outline: Outline, pass: PassView)
    requires
        outline.describes(pass),
        outline.stack == Texts::Nil.with(outline.root),
    ensures
        pass.frames.len() == 1,
        pass.close_module() is Ok,
        pass.exit() is Ok,
        pass.close_module()->Ok_0.frames.len() == 0,
        pass.exit()->Ok_0.frames.len() == 0,
{
    reveal_with_fuel(Texts::names, 2);
    assert(outline.stack.names() =~= seq![outline.root]);
    assert(frame_names(pass.frames).len() == 1);
}

/// A part of a script that the outline accepts runs without an error behind
/// the parts that ran before it, and the outline after the part reads the pass
/// after it.
pub proof fn lemma_accepted_part(outline: Outline, start: PassView, done: Seq<StepView>, part: Seq<StepView>)
    requires
        start.run(done).1 is None,
        outline.describes(start.run(done).0),
        outline.accept_from(part, 0) is Some,
    ensures
        start.run(done + part).1 is None,
        start.run(done + part).0 == start.run(done).0.run(part).0,
        outline.accept_from(part, 0)->Some_0.describes(start.run(done + part).0),
{
    crate::script::lemma_run_concat(start, done, part);
    lemma_accepted_script(outline, start.run(done).0, part, 0);
    assert(part.skip(0) =~= part);
}

impl Texts {
    /// Some text of the list stands at the start of `text`.
    pub open spec fn has_start_of(self, text: Seq<char>) -> bool
        decreases self,
    {
        match self {
            Texts::Nil => false,
            Texts::Cons(head, tail) => starts_with(text, head) || tail.has_start_of(text),
        }
    }

    /// Every text of the list differs from `text` at a position that both have.
    pub open spec fn all_differ_from(self, text: Seq<char>) -> bool
        decreases self,
    {
        match self {
            Texts::Nil => true,
            Texts::Cons(head, tail) => differ_from(head, text, 0) && tail.all_differ_from(text),
        }
    }
}

/// Every entry lies in a module whose path starts with one of `roots`.
pub open spec fn rooted(entries: Seq<BindingView>, roots: Texts) -> bool {
    forall|i: int| 0 <= i < entries.len() ==> roots.has_start_of((#[trigger] entries[i]).path)
}

/// The names that `entries` bind, each with its path.
pub open spec fn keys_of(entries: Seq<BindingView>) -> Pairs
    decreases entries.len(),
{
    if entries.len() == 0 {
        Pairs::Nil
    } else {
        keys_of(entries.drop_last()).with(entries.last().path, entries.last().name)
    }
}

/// The native types that `entries` declare.
pub open spec fn natives_of(entries: Seq<BindingView>) -> Texts
    decreases entries.len(),
{
    if entries.len() == 0 {
        Texts::Nil
    } else if entries.last().kind == BindingKind::Type {
        natives_of(entries.drop_last()).with(entries.last().native)
    } else {
        natives_of(entries.drop_last())
    }
}

impl Outline {
    /// The outline of a pass that has entered the scope `root` with `entries`
    /// in its registry, all of them from outside the scope, and done nothing
    /// in the scope.
    pub open spec fn entered_with(root: Seq<char>, slots: nat, entries: Seq<BindingView>) -> Outline {
        Outline { declared: natives_of(entries), imports: keys_of(entries), ..Outline::entered(root, slots) }
    }
}

/// Two texts that differ at a position that both have, from `i` on, [`differ_from`] `i`.
proof fn lemma_differ_at(a: Seq<char>, b: Seq<char>, i: nat, j: int)
    requires
        i <= j < a.len(),
        j < b.len(),
        a[j] != b[j],
    ensures
        differ_from(a, b, i),
    decreases j - i,
{
    if a[i as int] == b[i as int] {
        lemma_differ_at(a, b, i + 1, j);
    }
}

/// A text that starts with one of `roots` differs from every text that all of
/// `roots` differ from.
proof fn lemma_rooted_differs(roots: Texts, path: Seq<char>, root: Seq<char>)
    requires
        roots.has_start_of(path),
        roots.all_differ_from(root),
    ensures
        differ_from(path, root, 0),
    decreases roots,
{
    match roots {
        Texts::Nil => {},
        Texts::Cons(head, tail) => {
            if starts_with(path, head) {
                let j = lemma_differ_witness(head, root, 0);
                assert(path[j] == head[j]);
                lemma_differ_at(path, root, 0, j);
            } else {
                lemma_rooted_differs(*tail, path, root);
            }
        },
    }
}

/// A list of roots that holds the start of a text holds it when it grows.
proof fn lemma_has_start_grows(roots: Texts, root: Seq<char>, path: Seq<char>)
    requires
        roots.has_start_of(path),
    ensures
        roots.with(root).has_start_of(path),
{
}

/// The keys of entries hold the key of each entry, and no other path.
proof fn lemma_keys_of(entries: Seq<BindingView>)
    ensures
        forall|i: int| 0 <= i < entries.len() ==> keys_of(entries).has((#[trigger] entries[i]).path, entries[i].name),
        forall|path: Seq<char>, name: Seq<char>| #[trigger]
            keys_of(entries).has(path, name) ==> exists|i: int|
                0 <= i < entries.len() && (#[trigger] entries[i]).path == path,
    decreases entries.len(),
{
    if entries.len() > 0 {
        let front = entries.drop_last();
        lemma_keys_of(front);
        assert forall|i: int| 0 <= i < entries.len() implies keys_of(entries).has(
            (#[trigger] entries[i]).path,
            entries[i].name,
        ) by {
            if i < front.len() {
                assert(front[i] == entries[i]);
            }
        }
        assert forall|path: Seq<char>, name: Seq<char>| #[trigger]
            keys_of(entries).has(path, name) implies exists|i: int|
            0 <= i < entries.len() && (#[trigger] entries[i]).path == path by {
            if keys_of(front).has(path, name) {
                let i = choose|i: int| 0 <= i < front.len() && (#[trigger] front[i]).path == path;
                assert(entries[i] == front[i]);
            } else {
                assert(entries[entries.len() - 1].path == path);
            }
        }
    }
}

/// The native types of entries are the types that the entries declare.
pub proof fn lemma_natives_of(entries: Seq<BindingView>)
    ensures
        forall|native: Seq<char>| #[trigger] natives_of(entries).has(native) <==> is_declared(entries, native),
    decreases entries.len(),
{
    if entries.len() > 0 {
        let front = entries.drop_last();
        let last = entries.last();
        lemma_natives_of(front);
        assert forall|native: Seq<char>| #[trigger] natives_of(entries).has(native) <==> is_declared(
            entries,
            native,
        ) by {
            if is_declared(entries, native) {
                let i = choose|i: int| 0 <= i < entries.len() && (#[trigger] entries[i]).declares(native);
                if i < front.len() {
                    assert(front[i] == entries[i]);
                    assert(is_declared(front, native));
                    assert(natives_of(front).has(native));
                } else {
                    assert(last.declares(native));
                }
                assert(natives_of(entries).has(native));
            }
            if natives_of(entries).has(native) {
                if natives_of(front).has(native) {
                    let i = choose|i: int| 0 <= i < front.len() && (#[trigger] front[i]).declares(native);
                    assert(entries[i] == front[i]);
                } else {
                    assert(entries[entries.len() - 1].declares(native));
                }
            }
        }
    }
}

/// A pass with no scope open, whose entries all lie under roots that differ
/// from `root`, can enter the scope `root`, with its opening written or not;
/// the outline of a pass that has entered the scope with these entries reads
/// the pass after.
pub proof fn lemma_entered_with_described(start: PassView, root: Seq<char>, nested: bool, roots: Texts)
    requires
        start.frames.len() == 0,
        well_formed_name(root),
        rooted(start.entries, roots),
        roots.all_differ_from(root),
    ensures
        start.open_module(root) is Ok,
        start.enter(root) is Ok,
        Outline::entered_with(root, start.slots, start.entries).describes(
            if nested {
                start.open_module(root)->Ok_0
            } else {
                start.enter(root)->Ok_0
            },
        ),
        Outline::entered_with(root, start.slots, start.entries).at_root(),
{
    reveal_with_fuel(Texts::names, 2);
    reveal_with_fuel(Frames::names, 2);
    reveal_with_fuel(Stacks::has, 2);
    reveal_with_fuel(Texts::all_among, 2);
    reveal_with_fuel(Frames::covers, 2);
    let outline = Outline::entered_with(root, start.slots, start.entries);
    let entered = start.enter(root)->Ok_0;
    scope::lemma_enter_keeps_well_formed(start.frames, root);
    assert(frame_names(start.frames) =~= Seq::<Seq<char>>::empty());
    assert(frame_names(entered.frames) =~= seq![root]);
    assert(outline.stack.names() =~= seq![root]);
    assert(outline.frames.names() =~= seq![root]);
    assert forall|v: Texts| #[trigger] outline.visited.has(v) implies well_formed_names(v.names()) && v.names().len()
        > 0 && v.names()[0] == outline.root by {
        assert(v == outline.stack);
    }
    lemma_keys_of(start.entries);
    lemma_natives_of(start.entries);
    assert(dotted(seq![root]) == root) by {
        reveal_with_fuel(dotted, 2);
        assert(seq![root].drop_last() =~= Seq::<Seq<char>>::empty());
    }
    assert forall|i: int| 0 <= i < entered.entries.len() implies outline.holds_outside(
        #[trigger] entered.entries[i],
    ) && entered.entries[i].path != root by {
        lemma_rooted_differs(roots, start.entries[i].path, root);
        let j = lemma_differ_witness(start.entries[i].path, root, 0);
    }
    assert(outline.describes(entered));
    if nested {
        let opened = start.open_module(root)->Ok_0;
        assert(opened == entered.write(crate::decl::module_open_line(entered.path())));
        lemma_write_described(outline, entered, crate::decl::module_open_line(entered.path()));
    }
}

/// The entries of a pass that an outline reads lie under the outermost scope
/// of the outline, or under the roots of the entries that the outline holds
/// as taken over.
pub proof fn lemma_described_rooted(outline: Outline, pass: PassView, before: Seq<BindingView>, roots: Texts)
    requires
        outline.describes(pass),
        outline.imports == keys_of(before),
        rooted(before, roots),
    ensures
        rooted(pass.entries, roots.with(outline.root)),
{
    lemma_keys_of(before);
    assert forall|i: int| 0 <= i < pass.entries.len() implies roots.with(outline.root).has_start_of(
        (#[trigger] pass.entries[i]).path,
    ) by {
        let entry = pass.entries[i];
        assert(outline.holds_inside(entry) || outline.holds_outside(entry));
        if outline.holds_inside(entry) {
            let v = choose|v: Texts| #[trigger] outline.visited.has(v) && entry.path == dotted(v.names());
            lemma_dotted_starts(v.names());
        } else {
            let j = choose|j: int| 0 <= j < before.len() && (#[trigger] before[j]).path == entry.path;
            assert(roots.has_start_of(before[j].path));
        }
    }
}

} // verus!
