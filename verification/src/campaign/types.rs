//! The pass that declares the core value types.
use crate::outline::Frames;
use crate::outline::Outline;
use crate::outline::Stacks;
use crate::outline::Texts;
use crate::outline::lemma_accepted_script;
use crate::outline::no_separator_from;
use crate::pass::PassView;
use crate::registry::BindingView;
use crate::registry::is_declared;
use crate::script::Step;
use crate::script::StepView;
use crate::script::new_script;
use crate::script::push_step;
use crate::script::step_views;
use vstd::prelude::*;

verus! {

/// The script that declares the core value types.
pub open spec fn types_steps() -> Seq<StepView> {
    seq![
        StepView::Type { native: "CamlGroupAffine"@, name: "or_infinity"@, arity: 1 },
        StepView::Type { native: "CamlScalarChallenge"@, name: "scalar_challenge"@, arity: 1 },
        StepView::Type { native: "CamlRandomOracles"@, name: "random_oracles"@, arity: 1 },
        StepView::Type { native: "PointEvaluations"@, name: "point_evaluations"@, arity: 1 },
        StepView::Type { native: "CamlLookupEvaluations"@, name: "lookup_evaluations"@, arity: 1 },
        StepView::Type { native: "CamlProofEvaluations"@, name: "proof_evaluations"@, arity: 1 },
        StepView::Type { native: "CamlPolyComm"@, name: "poly_comm"@, arity: 1 },
        StepView::Type { native: "CamlRecursionChallenge"@, name: "recursion_challenge"@, arity: 2 },
        StepView::Type { native: "CamlOpeningProof"@, name: "opening_proof"@, arity: 2 },
        StepView::Type { native: "CamlLookupCommitments"@, name: "lookup_commitments"@, arity: 1 },
        StepView::Type { native: "CamlProverCommitments"@, name: "prover_commitments"@, arity: 1 },
        StepView::Type { native: "CamlProverProof"@, name: "prover_proof"@, arity: 2 },
        StepView::Type { native: "CamlWire"@, name: "wire"@, arity: 0 },
        StepView::Type { native: "GateType"@, name: "gate_type"@, arity: 0 },
        StepView::Type { native: "LookupPattern"@, name: "lookup_pattern"@, arity: 0 },
        StepView::Type { native: "LookupPatterns"@, name: "lookup_patterns"@, arity: 0 },
        StepView::Type { native: "LookupFeatures"@, name: "lookup_features"@, arity: 0 },
        StepView::Type { native: "FeatureFlag"@, name: "feature_flag"@, arity: 0 },
        StepView::Type { native: "CamlCircuitGate"@, name: "circuit_gate"@, arity: 1 },
        StepView::Type { native: "CurrOrNext"@, name: "curr_or_next"@, arity: 0 },
        StepView::Type { native: "CamlOracles"@, name: "oracles"@, arity: 1 },
        StepView::OpenModule { name: "VerifierIndex"@ },
        StepView::OpenModule { name: "Lookup"@ },
        StepView::Type { native: "CamlLookupsUsed"@, name: "lookups_used"@, arity: 0 },
        StepView::Type { native: "CamlLookupInfo"@, name: "lookup_info"@, arity: 0 },
        StepView::Type { native: "CamlLookupSelectors"@, name: "lookup_selectors"@, arity: 1 },
        StepView::Type { native: "CamlLookupVerifierIndex"@, name: "t"@, arity: 1 },
        StepView::CloseModule,
        StepView::Type { native: "CamlPlonkDomain"@, name: "domain"@, arity: 1 },
        StepView::Type { native: "CamlPlonkVerificationEvals"@, name: "verification_evals"@, arity: 1 },
        StepView::Type { native: "CamlPlonkVerifierIndex"@, name: "verifier_index"@, arity: 3 },
        StepView::CloseModule,
    ]
}

/// Builds [`types_steps`].
pub fn types_script() -> (steps: Vec<Step>)
    ensures
        step_views(steps@) == types_steps(),
{
    let mut steps: Vec<Step> = new_script();
    push_step(&mut steps, Step::ty("CamlGroupAffine", "or_infinity", 1));
    push_step(&mut steps, Step::ty("CamlScalarChallenge", "scalar_challenge", 1));
    push_step(&mut steps, Step::ty("CamlRandomOracles", "random_oracles", 1));
    push_step(&mut steps, Step::ty("PointEvaluations", "point_evaluations", 1));
    push_step(&mut steps, Step::ty("CamlLookupEvaluations", "lookup_evaluations", 1));
    push_step(&mut steps, Step::ty("CamlProofEvaluations", "proof_evaluations", 1));
    push_step(&mut steps, Step::ty("CamlPolyComm", "poly_comm", 1));
    push_step(&mut steps, Step::ty("CamlRecursionChallenge", "recursion_challenge", 2));
    push_step(&mut steps, Step::ty("CamlOpeningProof", "opening_proof", 2));
    push_step(&mut steps, Step::ty("CamlLookupCommitments", "lookup_commitments", 1));
    push_step(&mut steps, Step::ty("CamlProverCommitments", "prover_commitments", 1));
    push_step(&mut steps, Step::ty("CamlProverProof", "prover_proof", 2));
    push_step(&mut steps, Step::ty("CamlWire", "wire", 0));
    push_step(&mut steps, Step::ty("GateType", "gate_type", 0));
    push_step(&mut steps, Step::ty("LookupPattern", "lookup_pattern", 0));
    push_step(&mut steps, Step::ty("LookupPatterns", "lookup_patterns", 0));
    push_step(&mut steps, Step::ty("LookupFeatures", "lookup_features", 0));
    push_step(&mut steps, Step::ty("FeatureFlag", "feature_flag", 0));
    push_step(&mut steps, Step::ty("CamlCircuitGate", "circuit_gate", 1));
    push_step(&mut steps, Step::ty("CurrOrNext", "curr_or_next", 0));
    push_step(&mut steps, Step::ty("CamlOracles", "oracles", 1));
    push_step(&mut steps, Step::module("VerifierIndex"));
    push_step(&mut steps, Step::module("Lookup"));
    push_step(&mut steps, Step::ty("CamlLookupsUsed", "lookups_used", 0));
    push_step(&mut steps, Step::ty("CamlLookupInfo", "lookup_info", 0));
    push_step(&mut steps, Step::ty("CamlLookupSelectors", "lookup_selectors", 1));
    push_step(&mut steps, Step::ty("CamlLookupVerifierIndex", "t", 1));
    push_step(&mut steps, Step::CloseModule);
    push_step(&mut steps, Step::ty("CamlPlonkDomain", "domain", 1));
    push_step(&mut steps, Step::ty("CamlPlonkVerificationEvals", "verification_evals", 1));
    push_step(&mut steps, Step::ty("CamlPlonkVerifierIndex", "verifier_index", 3));
    push_step(&mut steps, Step::CloseModule);
    steps
}

/// What the script that declares the core value types asks of a pass, read as an
/// outline: the pass has entered a module and done nothing in it.
pub open spec fn types_ready(outline: Outline) -> bool {
    &&& outline.at_root()
    &&& outline.slots >= 3
}

/// The registry declares the native types that the synonyms of the script name
/// and the script does not declare.
pub open spec fn types_needs(entries: Seq<BindingView>) -> bool {
    true
}

/// The registry declares the native types of the script that the synonyms of
/// later scripts name.
pub open spec fn types_offers(entries: Seq<BindingView>) -> bool {
    &&& is_declared(entries, "CamlGroupAffine"@)
    &&& is_declared(entries, "CamlPolyComm"@)
    &&& is_declared(entries, "CamlCircuitGate"@)
    &&& is_declared(entries, "CamlOracles"@)
    &&& is_declared(entries, "CamlPlonkVerifierIndex"@)
}

/// Some outline that the script can start from reads the pass.
pub open spec fn types_can_run(pass: PassView) -> bool {
    exists|outline: Outline| #[trigger] outline.describes(pass) && types_ready(outline)
}

/// The outline accepts [`types_steps`] in a scope that binds no name yet, and leaves
/// the scopes that were open as they were.
#[verifier::spinoff_prover]
proof fn lemma_types_accepted(pre: Outline)
    requires
        pre.frames matches Frames::Cons(_, bound, _) && bound is Nil,
        pre.slots >= 3,
        !pre.visited.has(pre.stack.with("VerifierIndex"@)),
        !pre.visited.has(pre.stack.with("VerifierIndex"@).with("Lookup"@)),
    ensures
        pre.accept_from(types_steps(), 0) is Some,
        pre.accept_from(types_steps(), 0)->Some_0.stack == pre.stack,
        pre.accept_from(types_steps(), 0)->Some_0.root == pre.root,
        pre.accept_from(types_steps(), 0)->Some_0.imports == pre.imports,
        pre.accept_from(types_steps(), 0)->Some_0.declared.has("CamlGroupAffine"@),
        pre.accept_from(types_steps(), 0)->Some_0.declared.has("CamlPolyComm"@),
        pre.accept_from(types_steps(), 0)->Some_0.declared.has("CamlCircuitGate"@),
        pre.accept_from(types_steps(), 0)->Some_0.declared.has("CamlOracles"@),
        pre.accept_from(types_steps(), 0)->Some_0.declared.has("CamlPlonkVerifierIndex"@),
{
    reveal_strlit("Lookup");
    reveal_strlit("VerifierIndex");
    reveal_strlit("circuit_gate");
    reveal_strlit("curr_or_next");
    reveal_strlit("domain");
    reveal_strlit("feature_flag");
    reveal_strlit("gate_type");
    reveal_strlit("lookup_commitments");
    reveal_strlit("lookup_evaluations");
    reveal_strlit("lookup_features");
    reveal_strlit("lookup_info");
    reveal_strlit("lookup_pattern");
    reveal_strlit("lookup_patterns");
    reveal_strlit("lookup_selectors");
    reveal_strlit("lookups_used");
    reveal_strlit("opening_proof");
    reveal_strlit("or_infinity");
    reveal_strlit("oracles");
    reveal_strlit("point_evaluations");
    reveal_strlit("poly_comm");
    reveal_strlit("proof_evaluations");
    reveal_strlit("prover_commitments");
    reveal_strlit("prover_proof");
    reveal_strlit("random_oracles");
    reveal_strlit("recursion_challenge");
    reveal_strlit("scalar_challenge");
    reveal_strlit("t");
    reveal_strlit("verification_evals");
    reveal_strlit("verifier_index");
    reveal_strlit("wire");
    reveal_with_fuel(Outline::accept_from, 33);
    reveal_with_fuel(no_separator_from, 20);
    reveal_with_fuel(Texts::has, 30);
    reveal_with_fuel(Stacks::has, 3);
    assert(types_steps().len() == 32);
}

/// The script that declares the core value types runs to its end without an error from
/// every pass that an outline reads which the script can start from. The
/// outline that is handed back reads the pass after the script: the scope that
/// was open is open, and no other.
#[verifier::spinoff_prover]
#[verifier::rlimit(50)]
pub proof fn lemma_types_runs(start: PassView, first: Outline) -> (end: Outline)
    requires
        first.describes(start),
        types_ready(first),
    ensures
        start.run(types_steps()).1 is None,
        end.describes(start.run(types_steps()).0),
        end.stack == first.stack,
        end.root == first.root,
        end.imports == first.imports,
        end.declared.has("CamlGroupAffine"@),
        end.declared.has("CamlPolyComm"@),
        end.declared.has("CamlCircuitGate"@),
        end.declared.has("CamlOracles"@),
        end.declared.has("CamlPlonkVerifierIndex"@),
{
    reveal_strlit("Lookup");
    reveal_strlit("VerifierIndex");
    reveal_with_fuel(Stacks::has, 4);
    reveal_with_fuel(no_separator_from, 14);
    assert(no_separator_from("Lookup"@, 0));
    assert(no_separator_from("VerifierIndex"@, 0));
    lemma_types_accepted(first);
    lemma_accepted_script(first, start, types_steps(), 0);
    assert(types_steps().skip(0) =~= types_steps());
    let after_types = first.accept_from(types_steps(), 0)->Some_0;
    after_types
}

} // verus!
