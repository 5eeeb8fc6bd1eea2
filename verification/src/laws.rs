//! Laws that relate the operations of a pass to one another.
use crate::decl::DeclKind;
use crate::decl::DeclView;
use crate::decl::TypeExprView;
use crate::error::GenError;
use crate::pass::PassView;
use crate::registry;
use crate::registry::binding_of;
use crate::registry::declaration_of;
use crate::registry::declare_alias_spec;
use crate::registry::declare_function_spec;
use crate::registry::declare_type_spec;
use crate::registry::is_bound;
use crate::registry::BindingKind;
use crate::registry::BindingView;
use crate::scope;
use crate::scope::enter_spec;
use crate::scope::exit_spec;
use crate::scope::frame_names;
use crate::scope::path_of;
use crate::scope::FrameView;
use crate::script::StepView;
use crate::text::qualify;
use crate::text::well_formed_name;
use vstd::prelude::*;

verus! {

/// A call on the scope stack.
pub enum ScopeCall {
    /// Enter the scope of this name.
    Enter(Seq<char>),
    /// Leave the innermost scope.
    Exit,
}

/// The stack after one call; a call that fails leaves it as it was.
pub open spec fn after_call(frames: Seq<FrameView>, call: ScopeCall) -> Seq<FrameView> {
    let outcome = match call {
        ScopeCall::Enter(name) => enter_spec(frames, name),
        ScopeCall::Exit => exit_spec(frames),
    };
    match outcome {
        Ok(next) => next,
        Err(_) => frames,
    }
}

/// The stack after a sequence of calls, made one after the other.
pub open spec fn after_calls(frames: Seq<FrameView>, calls: Seq<ScopeCall>) -> Seq<FrameView>
    decreases calls.len(),
{
    if calls.len() == 0 {
        frames
    } else {
        after_calls(after_call(frames, calls[0]), calls.drop_first())
    }
}

/// The number of calls, in a sequence made one after the other, that raise
/// [`GenError::ScopeUnderflow`].
pub open spec fn underflows(frames: Seq<FrameView>, calls: Seq<ScopeCall>) -> nat
    decreases calls.len(),
{
    if calls.len() == 0 {
        0
    } else {
        let raised: nat = if calls[0] is Exit && exit_spec(frames) == Err::<Seq<FrameView>, GenError>(
            GenError::ScopeUnderflow,
        ) {
            1
        } else {
            0
        };
        raised + underflows(after_call(frames, calls[0]), calls.drop_first())
    }
}

/// The number of calls in `calls` that enter a scope.
pub open spec fn enters(calls: Seq<ScopeCall>) -> nat
    decreases calls.len(),
{
    if calls.len() == 0 {
        0
    } else {
        (if calls[0] is Enter {
            1nat
        } else {
            0nat
        }) + enters(calls.drop_first())
    }
}

/// The number of calls in `calls` that leave a scope.
pub open spec fn exits(calls: Seq<ScopeCall>) -> nat
    decreases calls.len(),
{
    if calls.len() == 0 {
        0
    } else {
        (if calls[0] is Exit {
            1nat
        } else {
            0nat
        }) + exits(calls.drop_first())
    }
}

/// Every scope that `calls` enter has a well-formed name.
pub open spec fn names_well_formed(calls: Seq<ScopeCall>) -> bool {
    forall|i: int| 0 <= i < calls.len() ==> ((#[trigger] calls[i]) matches ScopeCall::Enter(name) ==> well_formed_name(name))
}

/// Every exit either closes one scope or raises one underflow: after any
/// sequence of calls with well-formed names, the scopes still open and the
/// exits made add up to the scopes there were, the scopes entered and the
/// underflows raised. So a pass that starts with no scope open ends with none
/// open exactly when its exits, less the spurious ones, match its entries.
pub proof fn lemma_scope_accounting(frames: Seq<FrameView>, calls: Seq<ScopeCall>)
    requires
        names_well_formed(calls),
    ensures
        after_calls(frames, calls).len() + exits(calls) == frames.len() + enters(calls) + underflows(
            frames,
            calls,
        ),
    decreases calls.len(),
{
    if calls.len() > 0 {
        let rest = calls.drop_first();
        assert forall|i: int| 0 <= i < rest.len() implies ((#[trigger] rest[i]) matches ScopeCall::Enter(name)
            ==> well_formed_name(name)) by {
            assert(rest[i] == calls[i + 1]);
        }
        lemma_scope_accounting(after_call(frames, calls[0]), rest);
    }
}

/// An exit with no scope open raises an underflow and opens nothing; any other
/// exit closes exactly the scope that was entered last.
pub proof fn lemma_exit_closes_last(frames: Seq<FrameView>)
    ensures
        frames.len() == 0 ==> exit_spec(frames) == Err::<Seq<FrameView>, GenError>(GenError::ScopeUnderflow),
        frames.len() > 0 ==> exit_spec(frames) == Ok::<Seq<FrameView>, GenError>(frames.drop_last()),
{
}

/// Entering a scope puts its name behind the path of its parent, and leaving
/// it again gives back the stack as it was.
pub proof fn lemma_enter_then_exit(frames: Seq<FrameView>, name: Seq<char>)
    requires
        well_formed_name(name),
    ensures
        enter_spec(frames, name) is Ok,
        path_of(enter_spec(frames, name)->Ok_0) == qualify(path_of(frames), name),
        exit_spec(enter_spec(frames, name)->Ok_0) == Ok::<Seq<FrameView>, GenError>(frames),
{
    let entered = enter_spec(frames, name)->Ok_0;
    scope::lemma_path_of_push(frames, entered.last());
    assert(entered.drop_last() =~= frames);
}

/// The path of a well-formed stack tells which scopes are open: two well-formed
/// stacks with the same path have the same names, in the same order.
pub proof fn lemma_path_names_the_scopes(frames: Seq<FrameView>, others: Seq<FrameView>)
    requires
        scope::well_formed(frames),
        scope::well_formed(others),
        path_of(frames) == path_of(others),
    ensures
        frame_names(frames) == frame_names(others),
{
    crate::text::lemma_dotted_injective(frame_names(frames), frame_names(others));
}

/// A declaration, as the registry takes it.
pub enum Declaration {
    /// A type of its own, with its native name and its arity.
    Type { native: Seq<char>, arity: nat },
    /// A function, with its native name.
    Function { native: Seq<char> },
    /// A synonym, with the native name of its target.
    Alias { target: Seq<char> },
}

/// What a declaration of `name` in the module at `path` does to the registry.
pub open spec fn declare_spec(
    entries: Seq<BindingView>,
    path: Seq<char>,
    name: Seq<char>,
    declaration: Declaration,
) -> Result<Seq<BindingView>, GenError> {
    match declaration {
        Declaration::Type { native, arity } => declare_type_spec(entries, path, native, name, arity),
        Declaration::Function { native } => declare_function_spec(entries, path, native, name),
        Declaration::Alias { target } => declare_alias_spec(entries, path, name, target),
    }
}

/// A name that was declared in a module cannot be declared there again, by
/// whatever kind of declaration: the second attempt is a duplicate. Together
/// with the contracts of the declaring functions, which leave the registry
/// unchanged on an error, this keeps the registry as the first declaration
/// left it.
pub proof fn lemma_second_declaration_refused(
    entries: Seq<BindingView>,
    path: Seq<char>,
    name: Seq<char>,
    first: Declaration,
    second: Declaration,
)
    requires
        declare_spec(entries, path, name, first) is Ok,
    ensures
        declare_spec(declare_spec(entries, path, name, first)->Ok_0, path, name, second) == Err::<
            Seq<BindingView>,
            GenError,
        >(GenError::DuplicateDeclaration),
{
    let after = declare_spec(entries, path, name, first)->Ok_0;
    assert(after.last().has_key(path, name));
}

/// A successful declaration adds exactly one binding, behind those that were there.
pub proof fn lemma_declaration_appends(
    entries: Seq<BindingView>,
    path: Seq<char>,
    name: Seq<char>,
    declaration: Declaration,
)
    requires
        declare_spec(entries, path, name, declaration) is Ok,
    ensures
        declare_spec(entries, path, name, declaration)->Ok_0.len() == entries.len() + 1,
        declare_spec(entries, path, name, declaration)->Ok_0.drop_last() == entries,
        declare_spec(entries, path, name, declaration)->Ok_0.last().has_key(path, name),
        !is_bound(entries, path, name),
{
    let after = declare_spec(entries, path, name, declaration)->Ok_0;
    assert(after.drop_last() =~= entries);
}

/// A synonym cannot be told from its target by its arity: the binding that a
/// successful declaration of a synonym adds has the arity under which the
/// target was declared, and the registry stays well formed.
pub proof fn lemma_alias_has_target_arity(
    entries: Seq<BindingView>,
    path: Seq<char>,
    name: Seq<char>,
    target: Seq<char>,
)
    requires
        registry::well_formed(entries),
        declare_alias_spec(entries, path, name, target) is Ok,
    ensures
        registry::well_formed(declare_alias_spec(entries, path, name, target)->Ok_0),
        is_bound(declare_alias_spec(entries, path, name, target)->Ok_0, path, name),
        binding_of(declare_alias_spec(entries, path, name, target)->Ok_0, path, name).kind == BindingKind::Alias,
        binding_of(declare_alias_spec(entries, path, name, target)->Ok_0, path, name).arity == declaration_of(
            entries,
            target,
        ).arity,
        declaration_of(declare_alias_spec(entries, path, name, target)->Ok_0, target) == declaration_of(
            entries,
            target,
        ),
{
    let after = declare_alias_spec(entries, path, name, target)->Ok_0;
    let added = after.last();
    registry::lemma_push_well_formed(entries, added);
    registry::lemma_push_keeps_declaration(entries, added, target);
    registry::lemma_binding_unique(after, entries.len() as int, path, name);
}

/// In every well-formed registry, each synonym has the arity of the
/// declaration of its target, which stands before it.
pub proof fn lemma_every_alias_has_target_arity(entries: Seq<BindingView>, i: int)
    requires
        registry::well_formed(entries),
        0 <= i < entries.len(),
        entries[i].kind == BindingKind::Alias,
    ensures
        registry::is_declared(entries, entries[i].native),
        entries[i].arity == declaration_of(entries, entries[i].native).arity,
{
    let native = entries[i].native;
    let prefix = entries.take(i);
    let k = registry::lemma_first_declaration_exists(prefix, native);
    registry::lemma_first_declaration_unique(prefix, native, k);
    assert(entries[k] == prefix[k]);
    assert forall|m: int| 0 <= m < k implies !(#[trigger] entries[m]).declares(native) by {
        assert(prefix[m] == entries[m]);
    }
    registry::lemma_first_declaration_unique(entries, native, k);
}

/// The step declares a name: a type, a function or a synonym.
pub open spec fn is_declaration(step: StepView) -> bool {
    step is Type || step is Function || step is Alias
}

/// Recording a declaration in the innermost scope does not move the path.
pub proof fn lemma_record_keeps_path(pre: PassView, decl: DeclView)
    ensures
        pre.record(decl).path() == pre.path(),
        pre.record(decl).frames.len() == pre.frames.len(),
        pre.well_formed() ==> pre.record(decl).well_formed(),
{
    assert(frame_names(pre.record(decl).frames) =~= frame_names(pre.frames));
    if pre.well_formed() && pre.frames.len() > 0 {
        scope::lemma_record_keeps_well_formed(pre.frames, decl);
    }
}

/// Declaring twice in one pass: the step that succeeded fails as a duplicate
/// when it is taken again, whatever kind of declaration it is.
pub proof fn lemma_declaring_twice(pre: PassView, step: StepView)
    requires
        is_declaration(step),
        pre.step(step) is Ok,
    ensures
        pre.step(step)->Ok_0.step(step) == Err::<PassView, GenError>(GenError::DuplicateDeclaration),
{
    let mid = pre.step(step)->Ok_0;
    match step {
        StepView::Type { native, name, arity } => {
            let bound = pre.bind(
                BindingView { path: pre.path(), name, native, arity, kind: BindingKind::Type },
            );
            let decl = mid.frames.last().declarations.last();
            lemma_record_keeps_path(bound, decl);
            assert(mid.entries.last().has_key(pre.path(), name));
        },
        StepView::Function { native, name } => {
            let bound = pre.bind(
                BindingView { path: pre.path(), name, native, arity: 0, kind: BindingKind::Function },
            );
            let decl = mid.frames.last().declarations.last();
            lemma_record_keeps_path(bound, decl);
            assert(mid.entries.last().has_key(pre.path(), name));
        },
        StepView::Alias { name, target } => {
            let bound = pre.bind(mid.entries.last());
            let decl = mid.frames.last().declarations.last();
            assert(mid.entries =~= bound.entries);
            lemma_record_keeps_path(bound, decl);
            assert(mid.entries.last().has_key(pre.path(), name));
        },
        _ => {},
    }
}

/// A step keeps a pass well formed: the names in the registry stay unique, the
/// synonyms keep the arity of their targets, and every open scope keeps the
/// path that its position gives it.
pub proof fn lemma_step_keeps_well_formed(pre: PassView, step: StepView)
    requires
        pre.well_formed(),
        pre.step(step) is Ok,
    ensures
        pre.step(step)->Ok_0.well_formed(),
{
    let post = pre.step(step)->Ok_0;
    match step {
        StepView::Header => {},
        StepView::Comment { text } => {},
        StepView::Enter { name } => {
            scope::lemma_enter_keeps_well_formed(pre.frames, name);
        },
        StepView::Exit => {
            scope::lemma_exit_keeps_well_formed(pre.frames);
        },
        StepView::OpenModule { name } => {
            let opening = DeclView {
                kind: DeclKind::ModuleOpen,
                path: pre.path(),
                name,
                placeholders: Seq::empty(),
            };
            lemma_record_keeps_path(pre, opening);
            scope::lemma_enter_keeps_well_formed(pre.record(opening).frames, name);
        },
        StepView::CloseModule => {
            scope::lemma_exit_keeps_well_formed(pre.frames);
            let left = pre.exit()->Ok_0;
            let closing = DeclView {
                kind: DeclKind::ModuleClose,
                path: left.path(),
                name: pre.frames.last().name,
                placeholders: Seq::empty(),
            };
            lemma_record_keeps_path(left, closing);
        },
        StepView::Type { native, name, arity } => {
            let binding = BindingView { path: pre.path(), name, native, arity, kind: BindingKind::Type };
            registry::lemma_push_well_formed(pre.entries, binding);
            lemma_record_keeps_path(pre.bind(binding), post.frames.last().declarations.last());
        },
        StepView::Function { native, name } => {
            let binding = BindingView { path: pre.path(), name, native, arity: 0, kind: BindingKind::Function };
            registry::lemma_push_well_formed(pre.entries, binding);
            lemma_record_keeps_path(pre.bind(binding), post.frames.last().declarations.last());
        },
        StepView::Alias { name, target } => {
            let binding = post.entries.last();
            assert(post.entries =~= pre.entries.push(binding));
            registry::lemma_push_well_formed(pre.entries, binding);
            lemma_record_keeps_path(pre.bind(binding), post.frames.last().declarations.last());
        },
        StepView::Import { path, native, name, arity } => {
            let binding = BindingView { path, name, native, arity, kind: BindingKind::Type };
            registry::lemma_push_well_formed(pre.entries, binding);
        },
    }
}

/// A script leaves a well-formed pass well formed, whether it ends or fails.
pub proof fn lemma_run_keeps_well_formed(pre: PassView, steps: Seq<StepView>)
    requires
        pre.well_formed(),
    ensures
        pre.run(steps).0.well_formed(),
    decreases steps.len(),
{
    if steps.len() > 0 {
        match pre.step(steps[0]) {
            Ok(next) => {
                lemma_step_keeps_well_formed(pre, steps[0]);
                lemma_run_keeps_well_formed(next, steps.drop_first());
            },
            Err(_) => {},
        }
    }
}

/// A declaration that succeeds binds one name, records one declaration in the
/// innermost scope and writes one line; it opens and closes nothing.
pub proof fn lemma_declaration_is_one_unit(pre: PassView, step: StepView)
    requires
        is_declaration(step),
        pre.step(step) is Ok,
    ensures
        pre.step(step)->Ok_0.lines.len() == pre.lines.len() + 1,
        pre.step(step)->Ok_0.lines.drop_last() == pre.lines,
        pre.step(step)->Ok_0.entries.len() == pre.entries.len() + 1,
        pre.step(step)->Ok_0.entries.drop_last() == pre.entries,
        pre.step(step)->Ok_0.entries.last().path == pre.path(),
        pre.step(step)->Ok_0.frames.len() == pre.frames.len(),
        pre.step(step)->Ok_0.path() == pre.path(),
        pre.step(step)->Ok_0.frames.last().declarations.len() == pre.frames.last().declarations.len() + 1,
        pre.step(step)->Ok_0.frames.last().declarations.last().path == pre.path(),
        pre.step(step)->Ok_0.frames.last().declarations.last().name == pre.step(step)->Ok_0.entries.last().name,
{
    let post = pre.step(step)->Ok_0;
    let binding = post.entries.last();
    let decl = post.frames.last().declarations.last();
    assert(post.entries =~= pre.entries.push(binding));
    assert(post.entries.drop_last() =~= pre.entries);
    assert(post.lines.drop_last() =~= pre.lines);
    lemma_record_keeps_path(pre.bind(binding), decl);
}

/// A step never takes back what was written or bound: the lines and the
/// bindings of before stand at the front of those of after, in their order.
pub proof fn lemma_step_appends(pre: PassView, step: StepView)
    requires
        pre.step(step) is Ok,
    ensures
        pre.lines.is_prefix_of(pre.step(step)->Ok_0.lines),
        pre.entries.is_prefix_of(pre.step(step)->Ok_0.entries),
        pre.step(step)->Ok_0.slots == pre.slots,
{
}

/// A script never takes back what was written or bound, whether it ends or fails.
pub proof fn lemma_run_appends(pre: PassView, steps: Seq<StepView>)
    ensures
        pre.lines.is_prefix_of(pre.run(steps).0.lines),
        pre.entries.is_prefix_of(pre.run(steps).0.entries),
        pre.run(steps).0.slots == pre.slots,
    decreases steps.len(),
{
    if steps.len() > 0 {
        match pre.step(steps[0]) {
            Ok(next) => {
                lemma_step_appends(pre, steps[0]);
                lemma_run_appends(next, steps.drop_first());
            },
            Err(_) => {},
        }
    }
}

} // verus!
