//! The pass that declares the constraint systems.
use crate::outline::Frames;
use crate::outline::Outline;
use crate::outline::Stacks;
use crate::outline::Texts;
use crate::outline::lemma_accepted_part;
use crate::outline::lemma_accepted_script;
use crate::outline::no_separator_from;
use crate::pass::PassView;
use crate::registry::BindingView;
use crate::registry::is_declared;
use crate::script::Step;
use crate::script::StepView;
use crate::script::append_steps;
use crate::script::new_script;
use crate::script::push_step;
use crate::script::step_views;
use vstd::prelude::*;

verus! {

/// The module `Constraints`.
pub open spec fn constraints_steps() -> Seq<StepView> {
    seq![
        StepView::Comment { text: "The constraints exposed by Kimchi."@ },
        StepView::OpenModule { name: "Constraints"@ },
        StepView::Comment { text: "The legacy R1CS constraints."@ },
        StepView::Type { native: "BasicSnarkyConstraint"@, name: "r1cs"@, arity: 1 },
        StepView::Comment { text: "The inputs to the different custom gates."@ },
        StepView::OpenModule { name: "Inputs"@ },
        StepView::Type { native: "BasicInput"@, name: "generic"@, arity: 2 },
        StepView::Type { native: "PoseidonInput"@, name: "poseidon_input"@, arity: 1 },
        StepView::Type { native: "EcAddCompleteInput"@, name: "ec_add"@, arity: 1 },
        StepView::Type { native: "EndoscaleRound"@, name: "ec_endoscale_round"@, arity: 1 },
        StepView::Type { native: "ScaleRound"@, name: "ec_scale_round"@, arity: 1 },
        StepView::Type { native: "EcEndoscaleInput"@, name: "ec_endoscale"@, arity: 1 },
        StepView::Type { native: "EndoscaleScalarRound"@, name: "ec_endoscale_scalar_round"@, arity: 1 },
        StepView::CloseModule,
        StepView::Comment { text: "The custom gates exposed by Kimchi."@ },
        StepView::Type { native: "KimchiConstraint"@, name: "kimchi"@, arity: 2 },
        StepView::CloseModule,
    ]
}

/// Builds [`constraints_steps`].
pub fn constraints_script() -> (steps: Vec<Step>)
    ensures
        step_views(steps@) == constraints_steps(),
{
    let mut steps: Vec<Step> = new_script();
    push_step(&mut steps, Step::comment("The constraints exposed by Kimchi."));
    push_step(&mut steps, Step::module("Constraints"));
    push_step(&mut steps, Step::comment("The legacy R1CS constraints."));
    push_step(&mut steps, Step::ty("BasicSnarkyConstraint", "r1cs", 1));
    push_step(&mut steps, Step::comment("The inputs to the different custom gates."));
    push_step(&mut steps, Step::module("Inputs"));
    push_step(&mut steps, Step::ty("BasicInput", "generic", 2));
    push_step(&mut steps, Step::ty("PoseidonInput", "poseidon_input", 1));
    push_step(&mut steps, Step::ty("EcAddCompleteInput", "ec_add", 1));
    push_step(&mut steps, Step::ty("EndoscaleRound", "ec_endoscale_round", 1));
    push_step(&mut steps, Step::ty("ScaleRound", "ec_scale_round", 1));
    push_step(&mut steps, Step::ty("EcEndoscaleInput", "ec_endoscale", 1));
    push_step(&mut steps, Step::ty("EndoscaleScalarRound", "ec_endoscale_scalar_round", 1));
    push_step(&mut steps, Step::CloseModule);
    push_step(&mut steps, Step::comment("The custom gates exposed by Kimchi."));
    push_step(&mut steps, Step::ty("KimchiConstraint", "kimchi", 2));
    push_step(&mut steps, Step::CloseModule);
    steps
}

/// The module `Fp.Cvar`, with the modules around it that open or close here.
pub open spec fn fp_cvar_steps() -> Seq<StepView> {
    seq![
        StepView::OpenModule { name: "Fp"@ },
        StepView::OpenModule { name: "Cvar"@ },
        StepView::Type { native: "CamlFpVar"@, name: "t"@, arity: 0 },
        StepView::Function { native: "fp_var_of_index_unsafe"@, name: "of_index_unsafe"@ },
        StepView::Function { native: "fp_var_constant"@, name: "constant"@ },
        StepView::Function { native: "fp_var_add"@, name: "add"@ },
        StepView::Function { native: "fp_var_negate"@, name: "negate"@ },
        StepView::Function { native: "fp_var_scale"@, name: "scale"@ },
        StepView::Function { native: "fp_var_sub"@, name: "sub"@ },
        StepView::Function { native: "fp_var_to_constant"@, name: "to_constant"@ },
        StepView::CloseModule,
    ]
}

/// Builds [`fp_cvar_steps`].
pub fn fp_cvar_script() -> (steps: Vec<Step>)
    ensures
        step_views(steps@) == fp_cvar_steps(),
{
    let mut steps: Vec<Step> = new_script();
    push_step(&mut steps, Step::module("Fp"));
    push_step(&mut steps, Step::module("Cvar"));
    push_step(&mut steps, Step::ty("CamlFpVar", "t", 0));
    push_step(&mut steps, Step::function("fp_var_of_index_unsafe", "of_index_unsafe"));
    push_step(&mut steps, Step::function("fp_var_constant", "constant"));
    push_step(&mut steps, Step::function("fp_var_add", "add"));
    push_step(&mut steps, Step::function("fp_var_negate", "negate"));
    push_step(&mut steps, Step::function("fp_var_scale", "scale"));
    push_step(&mut steps, Step::function("fp_var_sub", "sub"));
    push_step(&mut steps, Step::function("fp_var_to_constant", "to_constant"));
    push_step(&mut steps, Step::CloseModule);
    steps
}

/// The module `Fp.Constraint_system`.
pub open spec fn fp_constraint_system_steps() -> Seq<StepView> {
    seq![
        StepView::OpenModule { name: "Constraint_system"@ },
        StepView::Type { native: "CamlFpCS"@, name: "t"@, arity: 0 },
        StepView::Function { native: "fp_cs_create"@, name: "create"@ },
        StepView::Function { native: "fp_cs_add_legacy_constraint"@, name: "add_legacy_constraint"@ },
        StepView::Function { native: "fp_cs_add_kimchi_constraint"@, name: "add_kimchi_constraint"@ },
        StepView::Function { native: "fp_cs_finalize"@, name: "finalize"@ },
        StepView::Function { native: "fp_cs_digest"@, name: "digest"@ },
        StepView::Function { native: "fp_cs_get_rows_len"@, name: "get_rows_len"@ },
        StepView::Function { native: "fp_cs_set_primary_input_size"@, name: "set_primary_input_size"@ },
        StepView::Function { native: "fp_cs_get_primary_input_size"@, name: "get_primary_input_size"@ },
        StepView::Function { native: "fp_cs_get_prev_challenges"@, name: "get_prev_challenges"@ },
        StepView::Function { native: "fp_cs_set_prev_challenges"@, name: "set_prev_challenges"@ },
        StepView::Function { native: "fp_cs_finalize_and_get_gates"@, name: "finalize_and_get_gates"@ },
        StepView::Function { native: "fp_cs_compute_witness"@, name: "compute_witness"@ },
        StepView::Function { native: "fp_cs_to_json"@, name: "to_json"@ },
        StepView::CloseModule,
    ]
}

/// Builds [`fp_constraint_system_steps`].
pub fn fp_constraint_system_script() -> (steps: Vec<Step>)
    ensures
        step_views(steps@) == fp_constraint_system_steps(),
{
    let mut steps: Vec<Step> = new_script();
    push_step(&mut steps, Step::module("Constraint_system"));
    push_step(&mut steps, Step::ty("CamlFpCS", "t", 0));
    push_step(&mut steps, Step::function("fp_cs_create", "create"));
    push_step(&mut steps, Step::function("fp_cs_add_legacy_constraint", "add_legacy_constraint"));
    push_step(&mut steps, Step::function("fp_cs_add_kimchi_constraint", "add_kimchi_constraint"));
    push_step(&mut steps, Step::function("fp_cs_finalize", "finalize"));
    push_step(&mut steps, Step::function("fp_cs_digest", "digest"));
    push_step(&mut steps, Step::function("fp_cs_get_rows_len", "get_rows_len"));
    push_step(&mut steps, Step::function("fp_cs_set_primary_input_size", "set_primary_input_size"));
    push_step(&mut steps, Step::function("fp_cs_get_primary_input_size", "get_primary_input_size"));
    push_step(&mut steps, Step::function("fp_cs_get_prev_challenges", "get_prev_challenges"));
    push_step(&mut steps, Step::function("fp_cs_set_prev_challenges", "set_prev_challenges"));
    push_step(&mut steps, Step::function("fp_cs_finalize_and_get_gates", "finalize_and_get_gates"));
    push_step(&mut steps, Step::function("fp_cs_compute_witness", "compute_witness"));
    push_step(&mut steps, Step::function("fp_cs_to_json", "to_json"));
    push_step(&mut steps, Step::CloseModule);
    steps
}

/// The module `Fp.State`, with the modules around it that open or close here.
pub open spec fn fp_state_steps() -> Seq<StepView> {
    seq![
        StepView::OpenModule { name: "State"@ },
        StepView::Type { native: "CamlFpState"@, name: "t"@, arity: 0 },
        StepView::Function { native: "fp_state_make"@, name: "make"@ },
        StepView::Function { native: "fp_state_add_legacy_constraint"@, name: "add_legacy_constraint"@ },
        StepView::Function { native: "fp_state_add_kimchi_constraint"@, name: "add_kimchi_constraint"@ },
        StepView::Function { native: "fp_state_get_variable_value"@, name: "get_variable_value"@ },
        StepView::Function { native: "fp_state_store_field_elt"@, name: "store_field_elt"@ },
        StepView::Function { native: "fp_state_alloc_var"@, name: "alloc_var"@ },
        StepView::Function { native: "fp_state_has_witness"@, name: "has_witness"@ },
        StepView::Function { native: "fp_state_as_prover"@, name: "as_prover"@ },
        StepView::Function { native: "fp_state_set_as_prover"@, name: "set_as_prover"@ },
        StepView::Function { native: "fp_state_eval_constraints"@, name: "eval_constraints"@ },
        StepView::Function { native: "fp_state_next_auxiliary"@, name: "next_auxiliary"@ },
        StepView::Function { native: "fp_state_system"@, name: "system"@ },
        StepView::Function { native: "fp_state_finalize"@, name: "finalize"@ },
        StepView::Function { native: "fp_state_set_public_inputs"@, name: "set_public_inputs"@ },
        StepView::Function { native: "fp_state_get_private_inputs"@, name: "get_private_inputs"@ },
        StepView::CloseModule,
        StepView::CloseModule,
    ]
}

/// Builds [`fp_state_steps`].
pub fn fp_state_script() -> (steps: Vec<Step>)
    ensures
        step_views(steps@) == fp_state_steps(),
{
    let mut steps: Vec<Step> = new_script();
    push_step(&mut steps, Step::module("State"));
    push_step(&mut steps, Step::ty("CamlFpState", "t", 0));
    push_step(&mut steps, Step::function("fp_state_make", "make"));
    push_step(&mut steps, Step::function("fp_state_add_legacy_constraint", "add_legacy_constraint"));
    push_step(&mut steps, Step::function("fp_state_add_kimchi_constraint", "add_kimchi_constraint"));
    push_step(&mut steps, Step::function("fp_state_get_variable_value", "get_variable_value"));
    push_step(&mut steps, Step::function("fp_state_store_field_elt", "store_field_elt"));
    push_step(&mut steps, Step::function("fp_state_alloc_var", "alloc_var"));
    push_step(&mut steps, Step::function("fp_state_has_witness", "has_witness"));
    push_step(&mut steps, Step::function("fp_state_as_prover", "as_prover"));
    push_step(&mut steps, Step::function("fp_state_set_as_prover", "set_as_prover"));
    push_step(&mut steps, Step::function("fp_state_eval_constraints", "eval_constraints"));
    push_step(&mut steps, Step::function("fp_state_next_auxiliary", "next_auxiliary"));
    push_step(&mut steps, Step::function("fp_state_system", "system"));
    push_step(&mut steps, Step::function("fp_state_finalize", "finalize"));
    push_step(&mut steps, Step::function("fp_state_set_public_inputs", "set_public_inputs"));
    push_step(&mut steps, Step::function("fp_state_get_private_inputs", "get_private_inputs"));
    push_step(&mut steps, Step::CloseModule);
    push_step(&mut steps, Step::CloseModule);
    steps
}

/// The module `Fq.Cvar`, with the modules around it that open or close here.
pub open spec fn fq_cvar_steps() -> Seq<StepView> {
    seq![
        StepView::OpenModule { name: "Fq"@ },
        StepView::OpenModule { name: "Cvar"@ },
        StepView::Type { native: "CamlFqVar"@, name: "t"@, arity: 0 },
        StepView::Function { native: "fq_var_of_index_unsafe"@, name: "of_index_unsafe"@ },
        StepView::Function { native: "fq_var_constant"@, name: "constant"@ },
        StepView::Function { native: "fq_var_add"@, name: "add"@ },
        StepView::Function { native: "fq_var_negate"@, name: "negate"@ },
        StepView::Function { native: "fq_var_scale"@, name: "scale"@ },
        StepView::Function { native: "fq_var_sub"@, name: "sub"@ },
        StepView::Function { native: "fq_var_to_constant"@, name: "to_constant"@ },
        StepView::CloseModule,
    ]
}

/// Builds [`fq_cvar_steps`].
pub fn fq_cvar_script() -> (steps: Vec<Step>)
    ensures
        step_views(steps@) == fq_cvar_steps(),
{
    let mut steps: Vec<Step> = new_script();
    push_step(&mut steps, Step::module("Fq"));
    push_step(&mut steps, Step::module("Cvar"));
    push_step(&mut steps, Step::ty("CamlFqVar", "t", 0));
    push_step(&mut steps, Step::function("fq_var_of_index_unsafe", "of_index_unsafe"));
    push_step(&mut steps, Step::function("fq_var_constant", "constant"));
    push_step(&mut steps, Step::function("fq_var_add", "add"));
    push_step(&mut steps, Step::function("fq_var_negate", "negate"));
    push_step(&mut steps, Step::function("fq_var_scale", "scale"));
    push_step(&mut steps, Step::function("fq_var_sub", "sub"));
    push_step(&mut steps, Step::function("fq_var_to_constant", "to_constant"));
    push_step(&mut steps, Step::CloseModule);
    steps
}

/// The module `Fq.Constraint_system`.
pub open spec fn fq_constraint_system_steps() -> Seq<StepView> {
    seq![
        StepView::OpenModule { name: "Constraint_system"@ },
        StepView::Type { native: "CamlFqCS"@, name: "t"@, arity: 0 },
        StepView::Function { native: "fq_cs_create"@, name: "create"@ },
        StepView::Function { native: "fq_cs_add_legacy_constraint"@, name: "add_legacy_constraint"@ },
        StepView::Function { native: "fq_cs_add_kimchi_constraint"@, name: "add_kimchi_constraint"@ },
        StepView::Function { native: "fq_cs_finalize"@, name: "finalize"@ },
        StepView::Function { native: "fq_cs_digest"@, name: "digest"@ },
        StepView::Function { native: "fq_cs_get_rows_len"@, name: "get_rows_len"@ },
        StepView::Function { native: "fq_cs_set_primary_input_size"@, name: "set_primary_input_size"@ },
        StepView::Function { native: "fq_cs_get_primary_input_size"@, name: "get_primary_input_size"@ },
        StepView::Function { native: "fq_cs_get_prev_challenges"@, name: "get_prev_challenges"@ },
        StepView::Function { native: "fq_cs_set_prev_challenges"@, name: "set_prev_challenges"@ },
        StepView::Function { native: "fq_cs_finalize_and_get_gates"@, name: "finalize_and_get_gates"@ },
        StepView::Function { native: "fq_cs_compute_witness"@, name: "compute_witness"@ },
        StepView::Function { native: "fq_cs_to_json"@, name: "to_json"@ },
        StepView::CloseModule,
    ]
}

/// Builds [`fq_constraint_system_steps`].
pub fn fq_constraint_system_script() -> (steps: Vec<Step>)
    ensures
        step_views(steps@) == fq_constraint_system_steps(),
{
    let mut steps: Vec<Step> = new_script();
    push_step(&mut steps, Step::module("Constraint_system"));
    push_step(&mut steps, Step::ty("CamlFqCS", "t", 0));
    push_step(&mut steps, Step::function("fq_cs_create", "create"));
    push_step(&mut steps, Step::function("fq_cs_add_legacy_constraint", "add_legacy_constraint"));
    push_step(&mut steps, Step::function("fq_cs_add_kimchi_constraint", "add_kimchi_constraint"));
    push_step(&mut steps, Step::function("fq_cs_finalize", "finalize"));
    push_step(&mut steps, Step::function("fq_cs_digest", "digest"));
    push_step(&mut steps, Step::function("fq_cs_get_rows_len", "get_rows_len"));
    push_step(&mut steps, Step::function("fq_cs_set_primary_input_size", "set_primary_input_size"));
    push_step(&mut steps, Step::function("fq_cs_get_primary_input_size", "get_primary_input_size"));
    push_step(&mut steps, Step::function("fq_cs_get_prev_challenges", "get_prev_challenges"));
    push_step(&mut steps, Step::function("fq_cs_set_prev_challenges", "set_prev_challenges"));
    push_step(&mut steps, Step::function("fq_cs_finalize_and_get_gates", "finalize_and_get_gates"));
    push_step(&mut steps, Step::function("fq_cs_compute_witness", "compute_witness"));
    push_step(&mut steps, Step::function("fq_cs_to_json", "to_json"));
    push_step(&mut steps, Step::CloseModule);
    steps
}

/// The module `Fq.State`, with the modules around it that open or close here.
pub open spec fn fq_state_steps() -> Seq<StepView> {
    seq![
        StepView::OpenModule { name: "State"@ },
        StepView::Type { native: "CamlFqState"@, name: "t"@, arity: 0 },
        StepView::Function { native: "fq_state_make"@, name: "make"@ },
        StepView::Function { native: "fq_state_add_legacy_constraint"@, name: "add_legacy_constraint"@ },
        StepView::Function { native: "fq_state_add_kimchi_constraint"@, name: "add_kimchi_constraint"@ },
        StepView::Function { native: "fq_state_get_variable_value"@, name: "get_variable_value"@ },
        StepView::Function { native: "fq_state_store_field_elt"@, name: "store_field_elt"@ },
        StepView::Function { native: "fq_state_alloc_var"@, name: "alloc_var"@ },
        StepView::Function { native: "fq_state_has_witness"@, name: "has_witness"@ },
        StepView::Function { native: "fq_state_as_prover"@, name: "as_prover"@ },
        StepView::Function { native: "fq_state_set_as_prover"@, name: "set_as_prover"@ },
        StepView::Function { native: "fq_state_eval_constraints"@, name: "eval_constraints"@ },
        StepView::Function { native: "fq_state_next_auxiliary"@, name: "next_auxiliary"@ },
        StepView::Function { native: "fq_state_system"@, name: "system"@ },
        StepView::Function { native: "fq_state_finalize"@, name: "finalize"@ },
        StepView::Function { native: "fq_state_set_public_inputs"@, name: "set_public_inputs"@ },
        StepView::Function { native: "fq_state_get_private_inputs"@, name: "get_private_inputs"@ },
        StepView::CloseModule,
        StepView::CloseModule,
    ]
}

/// Builds [`fq_state_steps`].
pub fn fq_state_script() -> (steps: Vec<Step>)
    ensures
        step_views(steps@) == fq_state_steps(),
{
    let mut steps: Vec<Step> = new_script();
    push_step(&mut steps, Step::module("State"));
    push_step(&mut steps, Step::ty("CamlFqState", "t", 0));
    push_step(&mut steps, Step::function("fq_state_make", "make"));
    push_step(&mut steps, Step::function("fq_state_add_legacy_constraint", "add_legacy_constraint"));
    push_step(&mut steps, Step::function("fq_state_add_kimchi_constraint", "add_kimchi_constraint"));
    push_step(&mut steps, Step::function("fq_state_get_variable_value", "get_variable_value"));
    push_step(&mut steps, Step::function("fq_state_store_field_elt", "store_field_elt"));
    push_step(&mut steps, Step::function("fq_state_alloc_var", "alloc_var"));
    push_step(&mut steps, Step::function("fq_state_has_witness", "has_witness"));
    push_step(&mut steps, Step::function("fq_state_as_prover", "as_prover"));
    push_step(&mut steps, Step::function("fq_state_set_as_prover", "set_as_prover"));
    push_step(&mut steps, Step::function("fq_state_eval_constraints", "eval_constraints"));
    push_step(&mut steps, Step::function("fq_state_next_auxiliary", "next_auxiliary"));
    push_step(&mut steps, Step::function("fq_state_system", "system"));
    push_step(&mut steps, Step::function("fq_state_finalize", "finalize"));
    push_step(&mut steps, Step::function("fq_state_set_public_inputs", "set_public_inputs"));
    push_step(&mut steps, Step::function("fq_state_get_private_inputs", "get_private_inputs"));
    push_step(&mut steps, Step::CloseModule);
    push_step(&mut steps, Step::CloseModule);
    steps
}

/// The script that declares the constraint systems: its parts, in order.
pub open spec fn snarky_steps() -> Seq<StepView> {
    constraints_steps()
        + fp_cvar_steps()
        + fp_constraint_system_steps()
        + fp_state_steps()
        + fq_cvar_steps()
        + fq_constraint_system_steps()
        + fq_state_steps()
}

/// Builds [`snarky_steps`].
pub fn snarky_script() -> (steps: Vec<Step>)
    ensures
        step_views(steps@) == snarky_steps(),
{
    let mut steps: Vec<Step> = constraints_script();
    append_steps(&mut steps, fp_cvar_script());
    append_steps(&mut steps, fp_constraint_system_script());
    append_steps(&mut steps, fp_state_script());
    append_steps(&mut steps, fq_cvar_script());
    append_steps(&mut steps, fq_constraint_system_script());
    append_steps(&mut steps, fq_state_script());
    steps
}

/// What the script that declares the constraint systems asks of a pass, read as an
/// outline: the pass has entered a module and done nothing in it.
pub open spec fn snarky_ready(outline: Outline) -> bool {
    &&& outline.at_root()
    &&& outline.slots >= 2
}

/// The registry declares the native types that the synonyms of the script name
/// and the script does not declare.
pub open spec fn snarky_needs(entries: Seq<BindingView>) -> bool {
    true
}

/// The registry declares the native types of the script that the synonyms of
/// later scripts name.
pub open spec fn snarky_offers(entries: Seq<BindingView>) -> bool {
    true
}

/// Some outline that the script can start from reads the pass.
pub open spec fn snarky_can_run(pass: PassView) -> bool {
    exists|outline: Outline| #[trigger] outline.describes(pass) && snarky_ready(outline)
}

/// The outline accepts [`constraints_steps`] wherever the modules that it opens were not
/// open before, and tells what the outline holds after.
#[verifier::spinoff_prover]
proof fn lemma_constraints_accepted(pre: Outline)
    requires
        pre.frames is Cons,
        pre.slots >= 2,
        !pre.visited.has(pre.stack.with("Constraints"@)),
        !pre.visited.has(pre.stack.with("Constraints"@).with("Inputs"@)),
    ensures
        pre.accept_from(constraints_steps(), 0) == Some(
            Outline {
                visited: pre.visited
                    .with(pre.stack.with("Constraints"@))
                    .with(pre.stack.with("Constraints"@).with("Inputs"@)),
                declared: pre.declared
                    .with("BasicSnarkyConstraint"@)
                    .with("BasicInput"@)
                    .with("PoseidonInput"@)
                    .with("EcAddCompleteInput"@)
                    .with("EndoscaleRound"@)
                    .with("ScaleRound"@)
                    .with("EcEndoscaleInput"@)
                    .with("EndoscaleScalarRound"@)
                    .with("KimchiConstraint"@),
                ..pre
            },
        ),
{
    reveal_strlit("Constraints");
    reveal_strlit("Inputs");
    reveal_strlit("ec_add");
    reveal_strlit("ec_endoscale");
    reveal_strlit("ec_endoscale_round");
    reveal_strlit("ec_endoscale_scalar_round");
    reveal_strlit("ec_scale_round");
    reveal_strlit("generic");
    reveal_strlit("kimchi");
    reveal_strlit("poseidon_input");
    reveal_strlit("r1cs");
    reveal_with_fuel(Outline::accept_from, 18);
    reveal_with_fuel(no_separator_from, 26);
    reveal_with_fuel(Texts::has, 11);
    reveal_with_fuel(Stacks::has, 3);
    assert(constraints_steps().len() == 17);
}

/// The outline accepts [`fp_cvar_steps`] wherever the modules that it opens were not
/// open before, and tells what the outline holds after.
#[verifier::spinoff_prover]
proof fn lemma_fp_cvar_accepted(pre: Outline)
    requires
        pre.frames is Cons,
        !pre.visited.has(pre.stack.with("Fp"@)),
        !pre.visited.has(pre.stack.with("Fp"@).with("Cvar"@)),
    ensures
        pre.accept_from(fp_cvar_steps(), 0) == Some(
            Outline {
                frames: Frames::Cons("Fp"@, Texts::Nil, Box::new(pre.frames)),
                stack: pre.stack.with("Fp"@),
                visited: pre.visited
                    .with(pre.stack.with("Fp"@))
                    .with(pre.stack.with("Fp"@).with("Cvar"@)),
                declared: pre.declared.with("CamlFpVar"@),
                ..pre
            },
        ),
{
    reveal_strlit("Cvar");
    reveal_strlit("Fp");
    reveal_strlit("add");
    reveal_strlit("constant");
    reveal_strlit("negate");
    reveal_strlit("of_index_unsafe");
    reveal_strlit("scale");
    reveal_strlit("sub");
    reveal_strlit("t");
    reveal_strlit("to_constant");
    reveal_with_fuel(Outline::accept_from, 12);
    reveal_with_fuel(no_separator_from, 16);
    reveal_with_fuel(Texts::has, 9);
    reveal_with_fuel(Stacks::has, 3);
    assert(fp_cvar_steps().len() == 11);
}

/// The outline accepts [`fp_constraint_system_steps`] wherever the modules that it opens were not
/// open before, and tells what the outline holds after.
#[verifier::spinoff_prover]
proof fn lemma_fp_constraint_system_accepted(pre: Outline)
    requires
        pre.frames is Cons,
        !pre.visited.has(pre.stack.with("Constraint_system"@)),
    ensures
        pre.accept_from(fp_constraint_system_steps(), 0) == Some(
            Outline {
                visited: pre.visited
                    .with(pre.stack.with("Constraint_system"@)),
                declared: pre.declared.with("CamlFpCS"@),
                ..pre
            },
        ),
{
    reveal_strlit("Constraint_system");
    reveal_strlit("add_kimchi_constraint");
    reveal_strlit("add_legacy_constraint");
    reveal_strlit("compute_witness");
    reveal_strlit("create");
    reveal_strlit("digest");
    reveal_strlit("finalize");
    reveal_strlit("finalize_and_get_gates");
    reveal_strlit("get_prev_challenges");
    reveal_strlit("get_primary_input_size");
    reveal_strlit("get_rows_len");
    reveal_strlit("set_prev_challenges");
    reveal_strlit("set_primary_input_size");
    reveal_strlit("t");
    reveal_strlit("to_json");
    reveal_with_fuel(Outline::accept_from, 17);
    reveal_with_fuel(no_separator_from, 23);
    reveal_with_fuel(Texts::has, 15);
    reveal_with_fuel(Stacks::has, 2);
    assert(fp_constraint_system_steps().len() == 16);
}

/// The outline accepts [`fp_state_steps`] wherever the modules that it opens were not
/// open before, and tells what the outline holds after.
#[verifier::spinoff_prover]
proof fn lemma_fp_state_accepted(pre: Outline)
    requires
        pre.frames matches Frames::Cons(_, _, rest) && *rest is Cons,
        pre.stack is Cons,
        !pre.visited.has(pre.stack.with("State"@)),
    ensures
        pre.accept_from(fp_state_steps(), 0) == Some(
            Outline {
                frames: *pre.frames->Cons_2,
                stack: *pre.stack->Cons_1,
                visited: pre.visited
                    .with(pre.stack.with("State"@)),
                declared: pre.declared.with("CamlFpState"@),
                ..pre
            },
        ),
{
    reveal_strlit("State");
    reveal_strlit("add_kimchi_constraint");
    reveal_strlit("add_legacy_constraint");
    reveal_strlit("alloc_var");
    reveal_strlit("as_prover");
    reveal_strlit("eval_constraints");
    reveal_strlit("finalize");
    reveal_strlit("get_private_inputs");
    reveal_strlit("get_variable_value");
    reveal_strlit("has_witness");
    reveal_strlit("make");
    reveal_strlit("next_auxiliary");
    reveal_strlit("set_as_prover");
    reveal_strlit("set_public_inputs");
    reveal_strlit("store_field_elt");
    reveal_strlit("system");
    reveal_strlit("t");
    reveal_with_fuel(Outline::accept_from, 20);
    reveal_with_fuel(no_separator_from, 22);
    reveal_with_fuel(Texts::has, 17);
    reveal_with_fuel(Stacks::has, 2);
    assert(fp_state_steps().len() == 19);
}

/// The outline accepts [`fq_cvar_steps`] wherever the modules that it opens were not
/// open before, and tells what the outline holds after.
#[verifier::spinoff_prover]
proof fn lemma_fq_cvar_accepted(pre: Outline)
    requires
        pre.frames is Cons,
        !pre.visited.has(pre.stack.with("Fq"@)),
        !pre.visited.has(pre.stack.with("Fq"@).with("Cvar"@)),
    ensures
        pre.accept_from(fq_cvar_steps(), 0) == Some(
            Outline {
                frames: Frames::Cons("Fq"@, Texts::Nil, Box::new(pre.frames)),
                stack: pre.stack.with("Fq"@),
                visited: pre.visited
                    .with(pre.stack.with("Fq"@))
                    .with(pre.stack.with("Fq"@).with("Cvar"@)),
                declared: pre.declared.with("CamlFqVar"@),
                ..pre
            },
        ),
{
    reveal_strlit("Cvar");
    reveal_strlit("Fq");
    reveal_strlit("add");
    reveal_strlit("constant");
    reveal_strlit("negate");
    reveal_strlit("of_index_unsafe");
    reveal_strlit("scale");
    reveal_strlit("sub");
    reveal_strlit("t");
    reveal_strlit("to_constant");
    reveal_with_fuel(Outline::accept_from, 12);
    reveal_with_fuel(no_separator_from, 16);
    reveal_with_fuel(Texts::has, 9);
    reveal_with_fuel(Stacks::has, 3);
    assert(fq_cvar_steps().len() == 11);
}

/// The outline accepts [`fq_constraint_system_steps`] wherever the modules that it opens were not
/// open before, and tells what the outline holds after.
#[verifier::spinoff_prover]
proof fn lemma_fq_constraint_system_accepted(pre: Outline)
    requires
        pre.frames is Cons,
        !pre.visited.has(pre.stack.with("Constraint_system"@)),
    ensures
        pre.accept_from(fq_constraint_system_steps(), 0) == Some(
            Outline {
                visited: pre.visited
                    .with(pre.stack.with("Constraint_system"@)),
                declared: pre.declared.with("CamlFqCS"@),
                ..pre
            },
        ),
{
    reveal_strlit("Constraint_system");
    reveal_strlit("add_kimchi_constraint");
    reveal_strlit("add_legacy_constraint");
    reveal_strlit("compute_witness");
    reveal_strlit("create");
    reveal_strlit("digest");
    reveal_strlit("finalize");
    reveal_strlit("finalize_and_get_gates");
    reveal_strlit("get_prev_challenges");
    reveal_strlit("get_primary_input_size");
    reveal_strlit("get_rows_len");
    reveal_strlit("set_prev_challenges");
    reveal_strlit("set_primary_input_size");
    reveal_strlit("t");
    reveal_strlit("to_json");
    reveal_with_fuel(Outline::accept_from, 17);
    reveal_with_fuel(no_separator_from, 23);
    reveal_with_fuel(Texts::has, 15);
    reveal_with_fuel(Stacks::has, 2);
    assert(fq_constraint_system_steps().len() == 16);
}

/// The outline accepts [`fq_state_steps`] wherever the modules that it opens were not
/// open before, and tells what the outline holds after.
#[verifier::spinoff_prover]
proof fn lemma_fq_state_accepted(pre: Outline)
    requires
        pre.frames matches Frames::Cons(_, _, rest) && *rest is Cons,
        pre.stack is Cons,
        !pre.visited.has(pre.stack.with("State"@)),
    ensures
        pre.accept_from(fq_state_steps(), 0) == Some(
            Outline {
                frames: *pre.frames->Cons_2,
                stack: *pre.stack->Cons_1,
                visited: pre.visited
                    .with(pre.stack.with("State"@)),
                declared: pre.declared.with("CamlFqState"@),
                ..pre
            },
        ),
{
    reveal_strlit("State");
    reveal_strlit("add_kimchi_constraint");
    reveal_strlit("add_legacy_constraint");
    reveal_strlit("alloc_var");
    reveal_strlit("as_prover");
    reveal_strlit("eval_constraints");
    reveal_strlit("finalize");
    reveal_strlit("get_private_inputs");
    reveal_strlit("get_variable_value");
    reveal_strlit("has_witness");
    reveal_strlit("make");
    reveal_strlit("next_auxiliary");
    reveal_strlit("set_as_prover");
    reveal_strlit("set_public_inputs");
    reveal_strlit("store_field_elt");
    reveal_strlit("system");
    reveal_strlit("t");
    reveal_with_fuel(Outline::accept_from, 20);
    reveal_with_fuel(no_separator_from, 22);
    reveal_with_fuel(Texts::has, 17);
    reveal_with_fuel(Stacks::has, 2);
    assert(fq_state_steps().len() == 19);
}

/// The script that declares the constraint systems runs to its end without an error from
/// every pass that an outline reads which the script can start from. The
/// outline that is handed back reads the pass after the script: the scope that
/// was open is open, and no other.
#[verifier::spinoff_prover]
#[verifier::rlimit(50)]
pub proof fn lemma_snarky_runs(start: PassView, first: Outline) -> (end: Outline)
    requires
        first.describes(start),
        snarky_ready(first),
    ensures
        start.run(snarky_steps()).1 is None,
        end.describes(start.run(snarky_steps()).0),
        end.stack == first.stack,
        end.root == first.root,
        end.imports == first.imports,
{
    reveal_strlit("Constraint_system");
    reveal_strlit("Constraints");
    reveal_strlit("Cvar");
    reveal_strlit("Fp");
    reveal_strlit("Fq");
    reveal_strlit("Inputs");
    reveal_strlit("State");
    reveal_with_fuel(Stacks::has, 12);
    reveal_with_fuel(Texts::has, 16);
    reveal_with_fuel(no_separator_from, 18);
    assert(no_separator_from("Constraint_system"@, 0));
    assert(no_separator_from("Constraints"@, 0));
    assert(no_separator_from("Cvar"@, 0));
    assert(no_separator_from("Fp"@, 0));
    assert(no_separator_from("Fq"@, 0));
    assert(no_separator_from("Inputs"@, 0));
    assert(no_separator_from("State"@, 0));
    lemma_constraints_accepted(first);
    lemma_accepted_script(first, start, constraints_steps(), 0);
    assert(constraints_steps().skip(0) =~= constraints_steps());
    let after_constraints = first.accept_from(constraints_steps(), 0)->Some_0;
    lemma_fp_cvar_accepted(after_constraints);
    lemma_accepted_part(
        after_constraints,
        start,
        constraints_steps(),
        fp_cvar_steps(),
    );
    let after_fp_cvar = after_constraints.accept_from(fp_cvar_steps(), 0)->Some_0;
    lemma_fp_constraint_system_accepted(after_fp_cvar);
    lemma_accepted_part(
        after_fp_cvar,
        start,
        constraints_steps()
            + fp_cvar_steps(),
        fp_constraint_system_steps(),
    );
    let after_fp_constraint_system = after_fp_cvar.accept_from(fp_constraint_system_steps(), 0)->Some_0;
    lemma_fp_state_accepted(after_fp_constraint_system);
    lemma_accepted_part(
        after_fp_constraint_system,
        start,
        constraints_steps()
            + fp_cvar_steps()
            + fp_constraint_system_steps(),
        fp_state_steps(),
    );
    let after_fp_state = after_fp_constraint_system.accept_from(fp_state_steps(), 0)->Some_0;
    lemma_fq_cvar_accepted(after_fp_state);
    lemma_accepted_part(
        after_fp_state,
        start,
        constraints_steps()
            + fp_cvar_steps()
            + fp_constraint_system_steps()
            + fp_state_steps(),
        fq_cvar_steps(),
    );
    let after_fq_cvar = after_fp_state.accept_from(fq_cvar_steps(), 0)->Some_0;
    lemma_fq_constraint_system_accepted(after_fq_cvar);
    lemma_accepted_part(
        after_fq_cvar,
        start,
        constraints_steps()
            + fp_cvar_steps()
            + fp_constraint_system_steps()
            + fp_state_steps()
            + fq_cvar_steps(),
        fq_constraint_system_steps(),
    );
    let after_fq_constraint_system = after_fq_cvar.accept_from(fq_constraint_system_steps(), 0)->Some_0;
    lemma_fq_state_accepted(after_fq_constraint_system);
    lemma_accepted_part(
        after_fq_constraint_system,
        start,
        constraints_steps()
            + fp_cvar_steps()
            + fp_constraint_system_steps()
            + fp_state_steps()
            + fq_cvar_steps()
            + fq_constraint_system_steps(),
        fq_state_steps(),
    );
    let after_fq_state = after_fq_constraint_system.accept_from(fq_state_steps(), 0)->Some_0;
    after_fq_state
}

} // verus!
