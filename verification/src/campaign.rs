//! The campaign: the four passes that declare the bindings of the native
//! library. Each pass starts from a state of its own and shares nothing with
//! the others but the number of placeholder slots.
use crate::campaign::kimchi::lemma_kimchi_runs;
use crate::campaign::kimchi::kimchi_can_run;
use crate::campaign::kimchi::kimchi_needs;
use crate::campaign::kimchi::kimchi_offers;
use crate::campaign::kimchi::kimchi_ready;
use crate::campaign::kimchi::lemma_kimchi_imports_run;
use crate::campaign::kimchi::kimchi_imports_script;
use crate::campaign::kimchi::kimchi_imports_steps;
use crate::campaign::kimchi::kimchi_script;
use crate::campaign::kimchi::kimchi_steps;
use crate::campaign::pasta::lemma_pasta_runs;
use crate::campaign::pasta::pasta_can_run;
use crate::campaign::pasta::pasta_needs;
use crate::campaign::pasta::pasta_offers;
use crate::campaign::pasta::pasta_ready;
use crate::campaign::pasta::lemma_pasta_imports_run;
use crate::campaign::pasta::pasta_imports_script;
use crate::campaign::pasta::pasta_imports_steps;
use crate::campaign::pasta::pasta_script;
use crate::campaign::pasta::pasta_steps;
use crate::campaign::snarky::lemma_snarky_runs;
use crate::campaign::snarky::snarky_can_run;
use crate::campaign::snarky::snarky_needs;
use crate::campaign::snarky::snarky_offers;
use crate::campaign::snarky::snarky_ready;
use crate::campaign::snarky::snarky_script;
use crate::campaign::snarky::snarky_steps;
use crate::campaign::types::lemma_types_runs;
use crate::campaign::types::types_can_run;
use crate::campaign::types::types_needs;
use crate::campaign::types::types_offers;
use crate::campaign::types::types_ready;
use crate::campaign::types::types_script;
use crate::campaign::types::types_steps;
use crate::decl::texts;
use crate::error::GenError;
use crate::laws::lemma_run_appends;
use crate::outline::lemma_described_leaves;
use crate::outline::lemma_described_rooted;
use crate::outline::lemma_entered_with_described;
use crate::outline::lemma_natives_of;
use crate::outline::differ_from;
use crate::outline::rooted;
use crate::outline::Texts;
use crate::outline::lemma_entered_described;
use crate::outline::lemma_no_separator;
use crate::outline::no_separator_from;
use crate::outline::Outline;
use crate::pass::Pass;
use crate::pass::PassView;
use crate::registry::is_declared;
use crate::registry::BindingView;
use crate::script::lemma_run_concat;
use crate::script::lemma_run_one;
use crate::script::StepView;
use crate::text::well_formed_name;
use vstd::prelude::*;

pub mod kimchi;
pub mod pasta;
pub mod snarky;
pub mod types;

verus! {

/// The number of placeholder slots that every pass registers.
pub const SLOTS: usize = 3;

/// The four passes of the campaign.
#[derive(Debug, Clone, Copy, PartialEq, Eq)]
pub enum PassKind {
    /// The core value types.
    Types,
    /// The two curves and their fields.
    Pasta,
    /// The operations of the protocol.
    Kimchi,
    /// The constraint systems.
    Snarky,
}

/// The name of the root module of a pass.
pub open spec fn root_name(kind: PassKind) -> Seq<char> {
    match kind {
        PassKind::Types => "Kimchi_types"@,
        PassKind::Pasta => "Pasta_bindings"@,
        PassKind::Kimchi => "Kimchi_bindings"@,
        PassKind::Snarky => "Snarky_bindings"@,
    }
}

/// The script that a pass walks inside its root module.
pub open spec fn script_of(kind: PassKind) -> Seq<StepView> {
    match kind {
        PassKind::Types => types_steps(),
        PassKind::Pasta => pasta_steps(),
        PassKind::Kimchi => kimchi_steps(),
        PassKind::Snarky => snarky_steps(),
    }
}

/// The types that a pass takes over from the passes before it, before it walks
/// its script: the passes share no registry, so a pass is told of every type
/// of another pass that its synonyms name.
pub open spec fn imports_of(kind: PassKind) -> Seq<StepView> {
    match kind {
        PassKind::Types => Seq::empty(),
        PassKind::Pasta => pasta_imports_steps(),
        PassKind::Kimchi => kimchi_imports_steps(),
        PassKind::Snarky => Seq::empty(),
    }
}

/// The passes of the campaign, in the order in which they run.
pub fn campaign() -> (order: Vec<PassKind>)
    ensures
        order@ == seq![PassKind::Types, PassKind::Pasta, PassKind::Kimchi, PassKind::Snarky],
{
    let mut order: Vec<PassKind> = Vec::new();
    order.push(PassKind::Types);
    order.push(PassKind::Pasta);
    order.push(PassKind::Kimchi);
    order.push(PassKind::Snarky);
    order
}

/// The name of the root module of a pass.
pub fn root_module(kind: PassKind) -> (name: &'static str)
    ensures
        name@ == root_name(kind),
{
    match kind {
        PassKind::Types => "Kimchi_types",
        PassKind::Pasta => "Pasta_bindings",
        PassKind::Kimchi => "Kimchi_bindings",
        PassKind::Snarky => "Snarky_bindings",
    }
}

/// Declares the core value types in the innermost open scope of `pass`, by
/// walking their script. In a pass that has entered a module and done nothing
/// in it, no step fails: see [`types_can_run`],
/// which holds in a pass of its own ([`lemma_pass_runs`]) and in one pass that
/// has walked the scripts before this one ([`lemma_one_pass_for_all`]).
pub fn generate_types_bindings(pass: &mut Pass) -> (result: Result<(), GenError>)
    requires
        old(pass).wf(),
    ensures
        final(pass).wf(),
        final(pass)@ == old(pass)@.run(types_steps()).0,
        match old(pass)@.run(types_steps()).1 {
            Some(e) => result == Err::<(), GenError>(e),
            None => result is Ok,
        },
        types_can_run(old(pass)@) ==> result is Ok,
{
    proof {
        if types_can_run(pass@) {
            let first = choose|outline: Outline| #[trigger] outline.describes(pass@) && types_ready(outline);
            lemma_types_runs(pass@, first);
        }
    }
    let steps = types_script();
    pass.run(&steps)
}

/// Declares the two curves and their fields in the innermost open scope of `pass`, by
/// walking their script. In a pass that has entered a module and done nothing
/// in it, and that declares the native type
/// that the synonyms of the script name, no step fails: see [`pasta_can_run`],
/// which holds in a pass of its own ([`lemma_pass_runs`]) and in one pass that
/// has walked the scripts before this one ([`lemma_one_pass_for_all`]).
pub fn generate_pasta_bindings(pass: &mut Pass) -> (result: Result<(), GenError>)
    requires
        old(pass).wf(),
    ensures
        final(pass).wf(),
        final(pass)@ == old(pass)@.run(pasta_steps()).0,
        match old(pass)@.run(pasta_steps()).1 {
            Some(e) => result == Err::<(), GenError>(e),
            None => result is Ok,
        },
        pasta_can_run(old(pass)@) ==> result is Ok,
{
    proof {
        if pasta_can_run(pass@) {
            let first = choose|outline: Outline| #[trigger] outline.describes(pass@) && pasta_ready(outline);
            lemma_pasta_runs(pass@, first);
        }
    }
    let steps = pasta_script();
    pass.run(&steps)
}

/// Declares the operations of the protocol in the innermost open scope of `pass`, by
/// walking their script. In a pass that has entered a module and done nothing
/// in it, and that declares the native types
/// that the synonyms of the script name, no step fails: see [`kimchi_can_run`],
/// which holds in a pass of its own ([`lemma_pass_runs`]) and in one pass that
/// has walked the scripts before this one ([`lemma_one_pass_for_all`]).
pub fn generate_kimchi_bindings(pass: &mut Pass) -> (result: Result<(), GenError>)
    requires
        old(pass).wf(),
    ensures
        final(pass).wf(),
        final(pass)@ == old(pass)@.run(kimchi_steps()).0,
        match old(pass)@.run(kimchi_steps()).1 {
            Some(e) => result == Err::<(), GenError>(e),
            None => result is Ok,
        },
        kimchi_can_run(old(pass)@) ==> result is Ok,
{
    proof {
        if kimchi_can_run(pass@) {
            let first = choose|outline: Outline| #[trigger] outline.describes(pass@) && kimchi_ready(outline);
            lemma_kimchi_runs(pass@, first);
        }
    }
    let steps = kimchi_script();
    pass.run(&steps)
}

/// Declares the constraint systems in the innermost open scope of `pass`, by
/// walking their script. In a pass that has entered a module and done nothing
/// in it, no step fails: see [`snarky_can_run`],
/// which holds in a pass of its own ([`lemma_pass_runs`]) and in one pass that
/// has walked the scripts before this one ([`lemma_one_pass_for_all`]).
pub fn generate_snarky_bindings(pass: &mut Pass) -> (result: Result<(), GenError>)
    requires
        old(pass).wf(),
    ensures
        final(pass).wf(),
        final(pass)@ == old(pass)@.run(snarky_steps()).0,
        match old(pass)@.run(snarky_steps()).1 {
            Some(e) => result == Err::<(), GenError>(e),
            None => result is Ok,
        },
        snarky_can_run(old(pass)@) ==> result is Ok,
{
    proof {
        if snarky_can_run(pass@) {
            let first = choose|outline: Outline| #[trigger] outline.describes(pass@) && snarky_ready(outline);
            lemma_snarky_runs(pass@, first);
        }
    }
    let steps = snarky_script();
    pass.run(&steps)
}

/// Takes over, into the registry of `pass`, the types that a pass of the
/// campaign needs from the passes before it. Nothing is written.
pub fn take_over_types(kind: PassKind, pass: &mut Pass) -> (result: Result<(), GenError>)
    requires
        old(pass).wf(),
    ensures
        final(pass).wf(),
        final(pass)@ == old(pass)@.run(imports_of(kind)).0,
        match old(pass)@.run(imports_of(kind)).1 {
            Some(e) => result == Err::<(), GenError>(e),
            None => result is Ok,
        },
{
    match kind {
        PassKind::Types => Ok(()),
        PassKind::Pasta => {
            let steps = pasta_imports_script();
            pass.run(&steps)
        },
        PassKind::Kimchi => {
            let steps = kimchi_imports_script();
            pass.run(&steps)
        },
        PassKind::Snarky => Ok(()),
    }
}

/// The step that takes a pass into its root module: by opening it, where the
/// sink holds the module as a nested one, or by entering it without a line,
/// where the sink as a whole stands for the module.
pub open spec fn opening(kind: PassKind, nested: bool) -> StepView {
    if nested {
        StepView::OpenModule { name: root_name(kind) }
    } else {
        StepView::Enter { name: root_name(kind) }
    }
}

/// The step that takes a pass out of its root module.
pub open spec fn closing(nested: bool) -> StepView {
    if nested {
        StepView::CloseModule
    } else {
        StepView::Exit
    }
}

/// Everything that a pass does, from its first line to its last: the header,
/// the way into the root module, the types taken over, the script, and the
/// way out.
pub open spec fn pass_steps(kind: PassKind, nested: bool) -> Seq<StepView> {
    seq![StepView::Header] + seq![opening(kind, nested)] + imports_of(kind) + script_of(kind) + seq![
        closing(nested),
    ]
}

fn generate(kind: PassKind, pass: &mut Pass) -> (result: Result<(), GenError>)
    requires
        old(pass).wf(),
    ensures
        final(pass).wf(),
        final(pass)@ == old(pass)@.run(script_of(kind)).0,
        match old(pass)@.run(script_of(kind)).1 {
            Some(e) => result == Err::<(), GenError>(e),
            None => result is Ok,
        },
{
    match kind {
        PassKind::Types => generate_types_bindings(pass),
        PassKind::Pasta => generate_pasta_bindings(pass),
        PassKind::Kimchi => generate_kimchi_bindings(pass),
        PassKind::Snarky => generate_snarky_bindings(pass),
    }
}

/// The name of the root module of every pass is well formed.
pub proof fn lemma_root_well_formed(kind: PassKind)
    ensures
        well_formed_name(root_name(kind)),
{
    reveal_strlit("Kimchi_types");
    reveal_strlit("Pasta_bindings");
    reveal_strlit("Kimchi_bindings");
    reveal_strlit("Snarky_bindings");
    reveal_with_fuel(no_separator_from, 16);
    lemma_no_separator(root_name(kind), 0);
}

/// Every pass of the campaign runs to its end: no step of it fails, and no
/// scope is open when it ends, whether its root module is written as a nested
/// one or not. When the pass has taken its types over, its script can start.
pub proof fn lemma_pass_runs(kind: PassKind, nested: bool)
    ensures
        PassView::fresh(SLOTS as nat).run(pass_steps(kind, nested)).1 is None,
        PassView::fresh(SLOTS as nat).run(pass_steps(kind, nested)).0.frames.len() == 0,
        PassView::fresh(SLOTS as nat).run(way_in(kind, nested) + imports_of(kind)).1 is None,
        can_run(kind, PassView::fresh(SLOTS as nat).run(way_in(kind, nested) + imports_of(kind)).0),
{
    let fresh = PassView::fresh(SLOTS as nat);
    let root = root_name(kind);
    let head = seq![StepView::Header];
    let way_in = seq![opening(kind, nested)];
    let imports = imports_of(kind);
    let script = script_of(kind);
    let way_out = seq![closing(nested)];
    lemma_root_well_formed(kind);
    lemma_run_one(fresh, StepView::Header);
    let written = fresh.run(head).0;
    lemma_entered_described(written, root, nested);
    lemma_run_one(written, opening(kind, nested));
    lemma_run_concat(fresh, head, way_in);
    let entered = fresh.run(head + way_in).0;
    let first = Outline::entered(root, SLOTS as nat);
    let taken = match kind {
        PassKind::Types => first,
        PassKind::Pasta => lemma_pasta_imports_run(entered),
        PassKind::Kimchi => lemma_kimchi_imports_run(entered),
        PassKind::Snarky => first,
    };
    lemma_run_concat(fresh, head + way_in, imports);
    let prepared = fresh.run(head + way_in + imports).0;
    assert(taken.describes(prepared));
    let end = match kind {
        PassKind::Types => lemma_types_runs(prepared, taken),
        PassKind::Pasta => lemma_pasta_runs(prepared, taken),
        PassKind::Kimchi => lemma_kimchi_runs(prepared, taken),
        PassKind::Snarky => lemma_snarky_runs(prepared, taken),
    };
    lemma_run_concat(fresh, head + way_in + imports, script);
    let walked = fresh.run(head + way_in + imports + script).0;
    lemma_described_leaves(end, walked);
    lemma_run_one(walked, closing(nested));
    lemma_run_concat(fresh, head + way_in + imports + script, way_out);
}

/// Runs one pass of the campaign on a state of its own and hands out the lines
/// of its sink. With `nested` the root module is written as a module of the
/// sink; without, the sink as a whole stands for it. A pass of the campaign
/// cannot fail: see [`lemma_pass_runs`].
pub fn run_pass(kind: PassKind, nested: bool) -> (result: Result<Vec<String>, GenError>)
    ensures
        result matches Ok(lines) && texts(lines@) == PassView::fresh(SLOTS as nat).run(
            pass_steps(kind, nested),
        ).0.lines,
{
    let mut pass = Pass::new(SLOTS);
    let ghost fresh = pass@;
    let ghost head = seq![StepView::Header];
    let ghost way_in = seq![opening(kind, nested)];
    let ghost imports = imports_of(kind);
    let ghost script = script_of(kind);
    let ghost way_out = seq![closing(nested)];
    proof {
        lemma_pass_runs(kind, nested);
        lemma_run_one(fresh, StepView::Header);
        lemma_run_concat(fresh, head, way_in);
        lemma_run_concat(fresh, head + way_in, imports);
        lemma_run_concat(fresh, head + way_in + imports, script);
        lemma_run_concat(fresh, head + way_in + imports + script, way_out);
    }
    pass.write_header();
    proof {
        lemma_run_one(pass@, opening(kind, nested));
    }
    let root = root_module(kind);
    let entered = if nested {
        pass.open_module(root)
    } else {
        pass.enter(root)
    };
    match entered {
        Err(e) => {
            return Err(e);
        },
        Ok(_) => {},
    }
    match take_over_types(kind, &mut pass) {
        Err(e) => {
            return Err(e);
        },
        Ok(_) => {},
    }
    match generate(kind, &mut pass) {
        Err(e) => {
            return Err(e);
        },
        Ok(_) => {},
    }
    proof {
        lemma_run_one(pass@, closing(nested));
    }
    if nested {
        match pass.close_module() {
            Err(e) => {
                return Err(e);
            },
            Ok(_) => {},
        }
    } else {
        match pass.exit() {
            Err(e) => {
                return Err(e);
            },
            Ok(_) => {},
        }
    }
    pass.finish()
}

/// The script of `kind` can start from the pass: see the four predicates
/// that stand for the four scripts.
pub open spec fn can_run(kind: PassKind, pass: PassView) -> bool {
    match kind {
        PassKind::Types => types_can_run(pass),
        PassKind::Pasta => pasta_can_run(pass),
        PassKind::Kimchi => kimchi_can_run(pass),
        PassKind::Snarky => snarky_can_run(pass),
    }
}

/// The registry declares the native types that the script of `kind` names
/// and does not declare.
pub open spec fn needs(kind: PassKind, entries: Seq<BindingView>) -> bool {
    match kind {
        PassKind::Types => types_needs(entries),
        PassKind::Pasta => pasta_needs(entries),
        PassKind::Kimchi => kimchi_needs(entries),
        PassKind::Snarky => snarky_needs(entries),
    }
}

/// The registry declares the native types of the script of `kind` that later
/// scripts name.
pub open spec fn offers(kind: PassKind, entries: Seq<BindingView>) -> bool {
    match kind {
        PassKind::Types => types_offers(entries),
        PassKind::Pasta => pasta_offers(entries),
        PassKind::Kimchi => kimchi_offers(entries),
        PassKind::Snarky => snarky_offers(entries),
    }
}

/// The way to the script of `kind`: the header and the step into the root module.
pub open spec fn way_in(kind: PassKind, nested: bool) -> Seq<StepView> {
    seq![StepView::Header] + seq![opening(kind, nested)]
}

/// What a pass does that walks the script of `kind` without taking any type
/// over: the header, the way into the root module, the script, and the way out.
pub open spec fn walk_steps(kind: PassKind, nested: bool) -> Seq<StepView> {
    way_in(kind, nested) + script_of(kind) + seq![closing(nested)]
}

/// What one pass that serves the whole campaign has done when it comes to the
/// script of `kind`: it has walked the scripts before it, each with its root
/// module nested or not as `nested` tells, and gone the way into the root
/// module of `kind`.
pub open spec fn steps_before(kind: PassKind, nested: spec_fn(PassKind) -> bool) -> Seq<StepView> {
    match kind {
        PassKind::Types => way_in(kind, nested(kind)),
        PassKind::Pasta => walk_steps(PassKind::Types, nested(PassKind::Types)) + way_in(kind, nested(kind)),
        PassKind::Kimchi => walk_steps(PassKind::Types, nested(PassKind::Types)) + walk_steps(
            PassKind::Pasta,
            nested(PassKind::Pasta),
        ) + way_in(kind, nested(kind)),
        PassKind::Snarky => walk_steps(PassKind::Types, nested(PassKind::Types)) + walk_steps(
            PassKind::Pasta,
            nested(PassKind::Pasta),
        ) + walk_steps(PassKind::Kimchi, nested(PassKind::Kimchi)) + way_in(kind, nested(kind)),
    }
}

/// A type that is declared stays declared when entries are added behind.
proof fn lemma_declared_in_longer(entries: Seq<BindingView>, longer: Seq<BindingView>, native: Seq<char>)
    requires
        entries.is_prefix_of(longer),
        is_declared(entries, native),
    ensures
        is_declared(longer, native),
{
    let i = choose|i: int| 0 <= i < entries.len() && (#[trigger] entries[i]).declares(native);
    assert(longer[i] == entries[i]);
}

/// One script after others in one pass. A pass with no scope open, with three
/// slots, whose entries lie under roots that differ from the root module of
/// `kind`, and that declares what the script needs, can go the way into the
/// root module; the script can start from the pass after, and runs to its
/// end; and when the pass has gone the way out, no scope is open, its entries
/// lie under the roots of before and the root module, what was declared is
/// declared, and so is what the script offers.
pub proof fn lemma_script_after_others(kind: PassKind, nested: bool, start: PassView, roots: Texts)
    requires
        start.frames.len() == 0,
        start.slots == SLOTS,
        rooted(start.entries, roots),
        roots.all_differ_from(root_name(kind)),
        needs(kind, start.entries),
    ensures
        start.run(way_in(kind, nested)).1 is None,
        can_run(kind, start.run(way_in(kind, nested)).0),
        start.run(walk_steps(kind, nested)).1 is None,
        start.run(walk_steps(kind, nested)).0.frames.len() == 0,
        start.run(walk_steps(kind, nested)).0.slots == SLOTS,
        rooted(start.run(walk_steps(kind, nested)).0.entries, roots.with(root_name(kind))),
        start.entries.is_prefix_of(start.run(walk_steps(kind, nested)).0.entries),
        offers(kind, start.run(walk_steps(kind, nested)).0.entries),
{
    let root = root_name(kind);
    let head = seq![StepView::Header];
    let step_in = seq![opening(kind, nested)];
    let script = script_of(kind);
    let way_out = seq![closing(nested)];
    lemma_root_well_formed(kind);
    lemma_run_one(start, StepView::Header);
    let written = start.run(head).0;
    lemma_entered_with_described(written, root, nested, roots);
    lemma_run_one(written, opening(kind, nested));
    lemma_run_concat(start, head, step_in);
    let entered = start.run(head + step_in).0;
    let first = Outline::entered_with(root, SLOTS as nat, start.entries);
    lemma_natives_of(start.entries);
    let end = match kind {
        PassKind::Types => {
            assert(types_ready(first));
            lemma_types_runs(entered, first)
        },
        PassKind::Pasta => {
            assert(pasta_ready(first));
            lemma_pasta_runs(entered, first)
        },
        PassKind::Kimchi => {
            assert(kimchi_ready(first));
            lemma_kimchi_runs(entered, first)
        },
        PassKind::Snarky => {
            assert(snarky_ready(first));
            lemma_snarky_runs(entered, first)
        },
    };
    assert(first.describes(entered));
    lemma_run_concat(start, head + step_in, script);
    let walked = start.run(head + step_in + script).0;
    lemma_described_leaves(end, walked);
    lemma_run_one(walked, closing(nested));
    lemma_run_concat(start, head + step_in + script, way_out);
    lemma_described_rooted(end, walked, start.entries, roots);
    lemma_run_appends(start, walk_steps(kind, nested));
}

/// One pass can serve the whole campaign, as a program does that keeps one
/// state for its four sinks: when the pass has walked the scripts before the
/// script of `kind` and gone the way into the root module of `kind`, no step
/// has failed, and the script of `kind` can start from the pass.
pub proof fn lemma_one_pass_for_all(kind: PassKind, nested: spec_fn(PassKind) -> bool)
    ensures
        PassView::fresh(SLOTS as nat).run(steps_before(kind, nested)).1 is None,
        can_run(kind, PassView::fresh(SLOTS as nat).run(steps_before(kind, nested)).0),
{
    reveal_strlit("Kimchi_types");
    reveal_strlit("Pasta_bindings");
    reveal_strlit("Kimchi_bindings");
    reveal_strlit("Snarky_bindings");
    reveal_with_fuel(differ_from, 16);
    reveal_with_fuel(Texts::all_differ_from, 4);
    let fresh = PassView::fresh(SLOTS as nat);
    let none = Texts::Nil;
    let types = walk_steps(PassKind::Types, nested(PassKind::Types));
    let pasta = walk_steps(PassKind::Pasta, nested(PassKind::Pasta));
    let kimchi = walk_steps(PassKind::Kimchi, nested(PassKind::Kimchi));
    lemma_script_after_others(PassKind::Types, nested(PassKind::Types), fresh, none);
    if kind != PassKind::Types {
        let after_types = fresh.run(types).0;
        let one = none.with(root_name(PassKind::Types));
        lemma_script_after_others(PassKind::Pasta, nested(PassKind::Pasta), after_types, one);
        lemma_run_concat(fresh, types, way_in(PassKind::Pasta, nested(PassKind::Pasta)));
        if kind != PassKind::Pasta {
            let after_pasta = after_types.run(pasta).0;
            let two = one.with(root_name(PassKind::Pasta));
            lemma_run_concat(fresh, types, pasta);
            assert(kimchi_needs(after_pasta.entries)) by {
                lemma_declared_in_longer(after_types.entries, after_pasta.entries, "CamlGroupAffine"@);
                lemma_declared_in_longer(after_types.entries, after_pasta.entries, "CamlPolyComm"@);
                lemma_declared_in_longer(after_types.entries, after_pasta.entries, "CamlCircuitGate"@);
                lemma_declared_in_longer(after_types.entries, after_pasta.entries, "CamlOracles"@);
                lemma_declared_in_longer(after_types.entries, after_pasta.entries, "CamlPlonkVerifierIndex"@);
            }
            lemma_script_after_others(PassKind::Kimchi, nested(PassKind::Kimchi), after_pasta, two);
            lemma_run_concat(fresh, types + pasta, way_in(PassKind::Kimchi, nested(PassKind::Kimchi)));
            if kind != PassKind::Kimchi {
                let after_kimchi = after_pasta.run(kimchi).0;
                let three = two.with(root_name(PassKind::Kimchi));
                lemma_run_concat(fresh, types + pasta, kimchi);
                lemma_script_after_others(PassKind::Snarky, nested(PassKind::Snarky), after_kimchi, three);
                lemma_run_concat(fresh, types + pasta + kimchi, way_in(PassKind::Snarky, nested(PassKind::Snarky)));
            }
        }
    }
}

} // verus!
