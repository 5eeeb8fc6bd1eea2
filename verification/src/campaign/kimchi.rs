//! The pass that declares the operations of the protocol.
use crate::decl::TypeExpr;
use crate::decl::TypeExprView;
use crate::outline::Frames;
use crate::outline::Outline;
use crate::outline::Pairs;
use crate::outline::Stacks;
use crate::outline::Texts;
use crate::outline::differ_from;
use crate::outline::lemma_accepted_part;
use crate::outline::lemma_accepted_script;
use crate::outline::no_separator_from;
use crate::outline::resolvable;
use crate::outline::resolvable_first;
use crate::pass::PassView;
use crate::registry::BindingView;
use crate::registry::is_declared;
use crate::script::Step;
use crate::script::StepView;
use crate::script::append_steps;
use crate::script::new_script;
use crate::script::push_step;
use crate::script::step_views;
use vstd::prelude::*;

verus! {

/// The module `FieldVectors`.
pub open spec fn field_vectors_steps() -> Seq<StepView> {
    seq![
        StepView::OpenModule { name: "FieldVectors"@ },
        StepView::OpenModule { name: "Fp"@ },
        StepView::Type { native: "CamlFpVector"@, name: "t"@, arity: 0 },
        StepView::Alias { name: "elt"@, target: TypeExprView::named("CamlFp"@) },
        StepView::Function { native: "caml_fp_vector_create"@, name: "create"@ },
        StepView::Function { native: "caml_fp_vector_length"@, name: "length"@ },
        StepView::Function { native: "caml_fp_vector_emplace_back"@, name: "emplace_back"@ },
        StepView::Function { native: "caml_fp_vector_get"@, name: "get"@ },
        StepView::Function { native: "caml_fp_vector_set"@, name: "set"@ },
        StepView::CloseModule,
        StepView::OpenModule { name: "Fq"@ },
        StepView::Type { native: "CamlFqVector"@, name: "t"@, arity: 0 },
        StepView::Alias { name: "elt"@, target: TypeExprView::named("CamlFq"@) },
        StepView::Function { native: "caml_fq_vector_create"@, name: "create"@ },
        StepView::Function { native: "caml_fq_vector_length"@, name: "length"@ },
        StepView::Function { native: "caml_fq_vector_emplace_back"@, name: "emplace_back"@ },
        StepView::Function { native: "caml_fq_vector_get"@, name: "get"@ },
        StepView::Function { native: "caml_fq_vector_set"@, name: "set"@ },
        StepView::CloseModule,
        StepView::CloseModule,
    ]
}

/// Builds [`field_vectors_steps`].
pub fn field_vectors_script() -> (steps: Vec<Step>)
    ensures
        step_views(steps@) == field_vectors_steps(),
{
    let mut steps: Vec<Step> = new_script();
    push_step(&mut steps, Step::module("FieldVectors"));
    push_step(&mut steps, Step::module("Fp"));
    push_step(&mut steps, Step::ty("CamlFpVector", "t", 0));
    push_step(&mut steps, Step::alias("elt", TypeExpr::named("CamlFp")));
    push_step(&mut steps, Step::function("caml_fp_vector_create", "create"));
    push_step(&mut steps, Step::function("caml_fp_vector_length", "length"));
    push_step(&mut steps, Step::function("caml_fp_vector_emplace_back", "emplace_back"));
    push_step(&mut steps, Step::function("caml_fp_vector_get", "get"));
    push_step(&mut steps, Step::function("caml_fp_vector_set", "set"));
    push_step(&mut steps, Step::CloseModule);
    push_step(&mut steps, Step::module("Fq"));
    push_step(&mut steps, Step::ty("CamlFqVector", "t", 0));
    push_step(&mut steps, Step::alias("elt", TypeExpr::named("CamlFq")));
    push_step(&mut steps, Step::function("caml_fq_vector_create", "create"));
    push_step(&mut steps, Step::function("caml_fq_vector_length", "length"));
    push_step(&mut steps, Step::function("caml_fq_vector_emplace_back", "emplace_back"));
    push_step(&mut steps, Step::function("caml_fq_vector_get", "get"));
    push_step(&mut steps, Step::function("caml_fq_vector_set", "set"));
    push_step(&mut steps, Step::CloseModule);
    push_step(&mut steps, Step::CloseModule);
    steps
}

/// The module `Protocol.Gates`, with the modules around it that open or close here.
pub open spec fn protocol_gates_steps() -> Seq<StepView> {
    seq![
        StepView::OpenModule { name: "Protocol"@ },
        StepView::OpenModule { name: "Gates"@ },
        StepView::OpenModule { name: "Vector"@ },
        StepView::OpenModule { name: "Fp"@ },
        StepView::Type { native: "CamlPastaFpPlonkGateVector"@, name: "t"@, arity: 0 },
        StepView::Alias { name: "elt"@, target: TypeExprView::applied("CamlCircuitGate"@, seq![TypeExprView::named("CamlFp"@)]) },
        StepView::Function { native: "caml_pasta_fp_plonk_gate_vector_create"@, name: "create"@ },
        StepView::Function { native: "caml_pasta_fp_plonk_gate_vector_add"@, name: "add"@ },
        StepView::Function { native: "caml_pasta_fp_plonk_gate_vector_get"@, name: "get"@ },
        StepView::Function { native: "caml_pasta_fp_plonk_gate_vector_len"@, name: "len"@ },
        StepView::Function { native: "caml_pasta_fp_plonk_gate_vector_wrap"@, name: "wrap"@ },
        StepView::Function { native: "caml_pasta_fp_plonk_gate_vector_digest"@, name: "digest"@ },
        StepView::CloseModule,
        StepView::OpenModule { name: "Fq"@ },
        StepView::Type { native: "CamlPastaFqPlonkGateVector"@, name: "t"@, arity: 0 },
        StepView::Alias { name: "elt"@, target: TypeExprView::applied("CamlCircuitGate"@, seq![TypeExprView::named("CamlFq"@)]) },
        StepView::Function { native: "caml_pasta_fq_plonk_gate_vector_create"@, name: "create"@ },
        StepView::Function { native: "caml_pasta_fq_plonk_gate_vector_add"@, name: "add"@ },
        StepView::Function { native: "caml_pasta_fq_plonk_gate_vector_get"@, name: "get"@ },
        StepView::Function { native: "caml_pasta_fq_plonk_gate_vector_len"@, name: "len"@ },
        StepView::Function { native: "caml_pasta_fq_plonk_gate_vector_wrap"@, name: "wrap"@ },
        StepView::Function { native: "caml_pasta_fq_plonk_gate_vector_digest"@, name: "digest"@ },
        StepView::CloseModule,
        StepView::CloseModule,
        StepView::CloseModule,
    ]
}

/// Builds [`protocol_gates_steps`].
pub fn protocol_gates_script() -> (steps: Vec<Step>)
    ensures
        step_views(steps@) == protocol_gates_steps(),
{
    let mut steps: Vec<Step> = new_script();
    push_step(&mut steps, Step::module("Protocol"));
    push_step(&mut steps, Step::module("Gates"));
    push_step(&mut steps, Step::module("Vector"));
    push_step(&mut steps, Step::module("Fp"));
    push_step(&mut steps, Step::ty("CamlPastaFpPlonkGateVector", "t", 0));
    push_step(&mut steps, Step::alias("elt", TypeExpr::apply1("CamlCircuitGate", TypeExpr::named("CamlFp"))));
    push_step(&mut steps, Step::function("caml_pasta_fp_plonk_gate_vector_create", "create"));
    push_step(&mut steps, Step::function("caml_pasta_fp_plonk_gate_vector_add", "add"));
    push_step(&mut steps, Step::function("caml_pasta_fp_plonk_gate_vector_get", "get"));
    push_step(&mut steps, Step::function("caml_pasta_fp_plonk_gate_vector_len", "len"));
    push_step(&mut steps, Step::function("caml_pasta_fp_plonk_gate_vector_wrap", "wrap"));
    push_step(&mut steps, Step::function("caml_pasta_fp_plonk_gate_vector_digest", "digest"));
    push_step(&mut steps, Step::CloseModule);
    push_step(&mut steps, Step::module("Fq"));
    push_step(&mut steps, Step::ty("CamlPastaFqPlonkGateVector", "t", 0));
    push_step(&mut steps, Step::alias("elt", TypeExpr::apply1("CamlCircuitGate", TypeExpr::named("CamlFq"))));
    push_step(&mut steps, Step::function("caml_pasta_fq_plonk_gate_vector_create", "create"));
    push_step(&mut steps, Step::function("caml_pasta_fq_plonk_gate_vector_add", "add"));
    push_step(&mut steps, Step::function("caml_pasta_fq_plonk_gate_vector_get", "get"));
    push_step(&mut steps, Step::function("caml_pasta_fq_plonk_gate_vector_len", "len"));
    push_step(&mut steps, Step::function("caml_pasta_fq_plonk_gate_vector_wrap", "wrap"));
    push_step(&mut steps, Step::function("caml_pasta_fq_plonk_gate_vector_digest", "digest"));
    push_step(&mut steps, Step::CloseModule);
    push_step(&mut steps, Step::CloseModule);
    push_step(&mut steps, Step::CloseModule);
    steps
}

/// The module `Protocol.SRS`.
pub open spec fn protocol_srs_steps() -> Seq<StepView> {
    seq![
        StepView::OpenModule { name: "SRS"@ },
        StepView::OpenModule { name: "Fp"@ },
        StepView::Type { native: "CamlFpSrs"@, name: "t"@, arity: 0 },
        StepView::OpenModule { name: "Poly_comm"@ },
        StepView::Alias { name: "t"@, target: TypeExprView::applied("CamlPolyComm"@, seq![TypeExprView::applied("CamlGroupAffine"@, seq![TypeExprView::named("CamlFp"@)])]) },
        StepView::CloseModule,
        StepView::Function { native: "caml_fp_srs_create"@, name: "create"@ },
        StepView::Function { native: "caml_fp_srs_write"@, name: "write"@ },
        StepView::Function { native: "caml_fp_srs_read"@, name: "read"@ },
        StepView::Function { native: "caml_fp_srs_lagrange_commitment"@, name: "lagrange_commitment"@ },
        StepView::Function { native: "caml_fp_srs_add_lagrange_basis"@, name: "add_lagrange_basis"@ },
        StepView::Function { native: "caml_fp_srs_commit_evaluations"@, name: "commit_evaluations"@ },
        StepView::Function { native: "caml_fp_srs_b_poly_commitment"@, name: "b_poly_commitment"@ },
        StepView::Function { native: "caml_fp_srs_batch_accumulator_check"@, name: "batch_accumulator_check"@ },
        StepView::Function { native: "caml_fp_srs_batch_accumulator_generate"@, name: "batch_accumulator_generate"@ },
        StepView::Function { native: "caml_fp_srs_h"@, name: "urs_h"@ },
        StepView::CloseModule,
        StepView::OpenModule { name: "Fq"@ },
        StepView::Type { native: "CamlFqSrs"@, name: "t"@, arity: 0 },
        StepView::Function { native: "caml_fq_srs_create"@, name: "create"@ },
        StepView::Function { native: "caml_fq_srs_write"@, name: "write"@ },
        StepView::Function { native: "caml_fq_srs_read"@, name: "read"@ },
        StepView::Function { native: "caml_fq_srs_lagrange_commitment"@, name: "lagrange_commitment"@ },
        StepView::Function { native: "caml_fq_srs_add_lagrange_basis"@, name: "add_lagrange_basis"@ },
        StepView::Function { native: "caml_fq_srs_commit_evaluations"@, name: "commit_evaluations"@ },
        StepView::Function { native: "caml_fq_srs_b_poly_commitment"@, name: "b_poly_commitment"@ },
        StepView::Function { native: "caml_fq_srs_batch_accumulator_check"@, name: "batch_accumulator_check"@ },
        StepView::Function { native: "caml_fq_srs_batch_accumulator_generate"@, name: "batch_accumulator_generate"@ },
        StepView::Function { native: "caml_fq_srs_h"@, name: "urs_h"@ },
        StepView::CloseModule,
        StepView::CloseModule,
    ]
}

/// Builds [`protocol_srs_steps`].
pub fn protocol_srs_script() -> (steps: Vec<Step>)
    ensures
        step_views(steps@) == protocol_srs_steps(),
{
    let mut steps: Vec<Step> = new_script();
    push_step(&mut steps, Step::module("SRS"));
    push_step(&mut steps, Step::module("Fp"));
    push_step(&mut steps, Step::ty("CamlFpSrs", "t", 0));
    push_step(&mut steps, Step::module("Poly_comm"));
    push_step(&mut steps, Step::alias("t", TypeExpr::apply1("CamlPolyComm", TypeExpr::apply1("CamlGroupAffine", TypeExpr::named("CamlFp")))));
    push_step(&mut steps, Step::CloseModule);
    push_step(&mut steps, Step::function("caml_fp_srs_create", "create"));
    push_step(&mut steps, Step::function("caml_fp_srs_write", "write"));
    push_step(&mut steps, Step::function("caml_fp_srs_read", "read"));
    push_step(&mut steps, Step::function("caml_fp_srs_lagrange_commitment", "lagrange_commitment"));
    push_step(&mut steps, Step::function("caml_fp_srs_add_lagrange_basis", "add_lagrange_basis"));
    push_step(&mut steps, Step::function("caml_fp_srs_commit_evaluations", "commit_evaluations"));
    push_step(&mut steps, Step::function("caml_fp_srs_b_poly_commitment", "b_poly_commitment"));
    push_step(&mut steps, Step::function("caml_fp_srs_batch_accumulator_check", "batch_accumulator_check"));
    push_step(&mut steps, Step::function("caml_fp_srs_batch_accumulator_generate", "batch_accumulator_generate"));
    push_step(&mut steps, Step::function("caml_fp_srs_h", "urs_h"));
    push_step(&mut steps, Step::CloseModule);
    push_step(&mut steps, Step::module("Fq"));
    push_step(&mut steps, Step::ty("CamlFqSrs", "t", 0));
    push_step(&mut steps, Step::function("caml_fq_srs_create", "create"));
    push_step(&mut steps, Step::function("caml_fq_srs_write", "write"));
    push_step(&mut steps, Step::function("caml_fq_srs_read", "read"));
    push_step(&mut steps, Step::function("caml_fq_srs_lagrange_commitment", "lagrange_commitment"));
    push_step(&mut steps, Step::function("caml_fq_srs_add_lagrange_basis", "add_lagrange_basis"));
    push_step(&mut steps, Step::function("caml_fq_srs_commit_evaluations", "commit_evaluations"));
    push_step(&mut steps, Step::function("caml_fq_srs_b_poly_commitment", "b_poly_commitment"));
    push_step(&mut steps, Step::function("caml_fq_srs_batch_accumulator_check", "batch_accumulator_check"));
    push_step(&mut steps, Step::function("caml_fq_srs_batch_accumulator_generate", "batch_accumulator_generate"));
    push_step(&mut steps, Step::function("caml_fq_srs_h", "urs_h"));
    push_step(&mut steps, Step::CloseModule);
    push_step(&mut steps, Step::CloseModule);
    steps
}

/// The module `Protocol.Index`.
pub open spec fn protocol_index_steps() -> Seq<StepView> {
    seq![
        StepView::OpenModule { name: "Index"@ },
        StepView::OpenModule { name: "Fp"@ },
        StepView::Type { native: "CamlPastaFpPlonkIndex"@, name: "t"@, arity: 0 },
        StepView::Function { native: "caml_pasta_fp_plonk_index_create"@, name: "create"@ },
        StepView::Function { native: "caml_pasta_fp_plonk_index_max_degree"@, name: "max_degree"@ },
        StepView::Function { native: "caml_pasta_fp_plonk_index_public_inputs"@, name: "public_inputs"@ },
        StepView::Function { native: "caml_pasta_fp_plonk_index_domain_d1_size"@, name: "domain_d1_size"@ },
        StepView::Function { native: "caml_pasta_fp_plonk_index_domain_d4_size"@, name: "domain_d4_size"@ },
        StepView::Function { native: "caml_pasta_fp_plonk_index_domain_d8_size"@, name: "domain_d8_size"@ },
        StepView::Function { native: "caml_pasta_fp_plonk_index_read"@, name: "read"@ },
        StepView::Function { native: "caml_pasta_fp_plonk_index_write"@, name: "write"@ },
        StepView::CloseModule,
        StepView::OpenModule { name: "Fq"@ },
        StepView::Type { native: "CamlPastaFqPlonkIndex"@, name: "t"@, arity: 0 },
        StepView::Function { native: "caml_pasta_fq_plonk_index_create"@, name: "create"@ },
        StepView::Function { native: "caml_pasta_fq_plonk_index_max_degree"@, name: "max_degree"@ },
        StepView::Function { native: "caml_pasta_fq_plonk_index_public_inputs"@, name: "public_inputs"@ },
        StepView::Function { native: "caml_pasta_fq_plonk_index_domain_d1_size"@, name: "domain_d1_size"@ },
        StepView::Function { native: "caml_pasta_fq_plonk_index_domain_d4_size"@, name: "domain_d4_size"@ },
        StepView::Function { native: "caml_pasta_fq_plonk_index_domain_d8_size"@, name: "domain_d8_size"@ },
        StepView::Function { native: "caml_pasta_fq_plonk_index_read"@, name: "read"@ },
        StepView::Function { native: "caml_pasta_fq_plonk_index_write"@, name: "write"@ },
        StepView::CloseModule,
        StepView::CloseModule,
    ]
}

/// Builds [`protocol_index_steps`].
pub fn protocol_index_script() -> (steps: Vec<Step>)
    ensures
        step_views(steps@) == protocol_index_steps(),
{
    let mut steps: Vec<Step> = new_script();
    push_step(&mut steps, Step::module("Index"));
    push_step(&mut steps, Step::module("Fp"));
    push_step(&mut steps, Step::ty("CamlPastaFpPlonkIndex", "t", 0));
    push_step(&mut steps, Step::function("caml_pasta_fp_plonk_index_create", "create"));
    push_step(&mut steps, Step::function("caml_pasta_fp_plonk_index_max_degree", "max_degree"));
    push_step(&mut steps, Step::function("caml_pasta_fp_plonk_index_public_inputs", "public_inputs"));
    push_step(&mut steps, Step::function("caml_pasta_fp_plonk_index_domain_d1_size", "domain_d1_size"));
    push_step(&mut steps, Step::function("caml_pasta_fp_plonk_index_domain_d4_size", "domain_d4_size"));
    push_step(&mut steps, Step::function("caml_pasta_fp_plonk_index_domain_d8_size", "domain_d8_size"));
    push_step(&mut steps, Step::function("caml_pasta_fp_plonk_index_read", "read"));
    push_step(&mut steps, Step::function("caml_pasta_fp_plonk_index_write", "write"));
    push_step(&mut steps, Step::CloseModule);
    push_step(&mut steps, Step::module("Fq"));
    push_step(&mut steps, Step::ty("CamlPastaFqPlonkIndex", "t", 0));
    push_step(&mut steps, Step::function("caml_pasta_fq_plonk_index_create", "create"));
    push_step(&mut steps, Step::function("caml_pasta_fq_plonk_index_max_degree", "max_degree"));
    push_step(&mut steps, Step::function("caml_pasta_fq_plonk_index_public_inputs", "public_inputs"));
    push_step(&mut steps, Step::function("caml_pasta_fq_plonk_index_domain_d1_size", "domain_d1_size"));
    push_step(&mut steps, Step::function("caml_pasta_fq_plonk_index_domain_d4_size", "domain_d4_size"));
    push_step(&mut steps, Step::function("caml_pasta_fq_plonk_index_domain_d8_size", "domain_d8_size"));
    push_step(&mut steps, Step::function("caml_pasta_fq_plonk_index_read", "read"));
    push_step(&mut steps, Step::function("caml_pasta_fq_plonk_index_write", "write"));
    push_step(&mut steps, Step::CloseModule);
    push_step(&mut steps, Step::CloseModule);
    steps
}

/// The module `Protocol.VerifierIndex`.
pub open spec fn protocol_verifier_index_steps() -> Seq<StepView> {
    seq![
        StepView::OpenModule { name: "VerifierIndex"@ },
        StepView::OpenModule { name: "Fp"@ },
        StepView::Alias { name: "t"@, target: TypeExprView::applied("CamlPlonkVerifierIndex"@, seq![TypeExprView::named("CamlFp"@), TypeExprView::named("CamlFpSrs"@), TypeExprView::applied("CamlPolyComm"@, seq![TypeExprView::applied("CamlGroupAffine"@, seq![TypeExprView::named("CamlFq"@)])])]) },
        StepView::Function { native: "caml_pasta_fp_plonk_verifier_index_create"@, name: "create"@ },
        StepView::Function { native: "caml_pasta_fp_plonk_verifier_index_read"@, name: "read"@ },
        StepView::Function { native: "caml_pasta_fp_plonk_verifier_index_write"@, name: "write"@ },
        StepView::Function { native: "caml_pasta_fp_plonk_verifier_index_shifts"@, name: "shifts"@ },
        StepView::Function { native: "caml_pasta_fp_plonk_verifier_index_dummy"@, name: "dummy"@ },
        StepView::Function { native: "caml_pasta_fp_plonk_verifier_index_deep_copy"@, name: "deep_copy"@ },
        StepView::CloseModule,
        StepView::OpenModule { name: "Fq"@ },
        StepView::Alias { name: "t"@, target: TypeExprView::applied("CamlPlonkVerifierIndex"@, seq![TypeExprView::named("CamlFq"@), TypeExprView::named("CamlFqSrs"@), TypeExprView::applied("CamlPolyComm"@, seq![TypeExprView::applied("CamlGroupAffine"@, seq![TypeExprView::named("CamlFp"@)])])]) },
        StepView::Function { native: "caml_pasta_fq_plonk_verifier_index_create"@, name: "create"@ },
        StepView::Function { native: "caml_pasta_fq_plonk_verifier_index_read"@, name: "read"@ },
        StepView::Function { native: "caml_pasta_fq_plonk_verifier_index_write"@, name: "write"@ },
        StepView::Function { native: "caml_pasta_fq_plonk_verifier_index_shifts"@, name: "shifts"@ },
        StepView::Function { native: "caml_pasta_fq_plonk_verifier_index_dummy"@, name: "dummy"@ },
        StepView::Function { native: "caml_pasta_fq_plonk_verifier_index_deep_copy"@, name: "deep_copy"@ },
        StepView::CloseModule,
        StepView::CloseModule,
    ]
}

/// Builds [`protocol_verifier_index_steps`].
pub fn protocol_verifier_index_script() -> (steps: Vec<Step>)
    ensures
        step_views(steps@) == protocol_verifier_index_steps(),
{
    let mut steps: Vec<Step> = new_script();
    push_step(&mut steps, Step::module("VerifierIndex"));
    push_step(&mut steps, Step::module("Fp"));
    push_step(&mut steps, Step::alias("t", TypeExpr::apply3("CamlPlonkVerifierIndex", TypeExpr::named("CamlFp"), TypeExpr::named("CamlFpSrs"), TypeExpr::apply1("CamlPolyComm", TypeExpr::apply1("CamlGroupAffine", TypeExpr::named("CamlFq"))))));
    push_step(&mut steps, Step::function("caml_pasta_fp_plonk_verifier_index_create", "create"));
    push_step(&mut steps, Step::function("caml_pasta_fp_plonk_verifier_index_read", "read"));
    push_step(&mut steps, Step::function("caml_pasta_fp_plonk_verifier_index_write", "write"));
    push_step(&mut steps, Step::function("caml_pasta_fp_plonk_verifier_index_shifts", "shifts"));
    push_step(&mut steps, Step::function("caml_pasta_fp_plonk_verifier_index_dummy", "dummy"));
    push_step(&mut steps, Step::function("caml_pasta_fp_plonk_verifier_index_deep_copy", "deep_copy"));
    push_step(&mut steps, Step::CloseModule);
    push_step(&mut steps, Step::module("Fq"));
    push_step(&mut steps, Step::alias("t", TypeExpr::apply3("CamlPlonkVerifierIndex", TypeExpr::named("CamlFq"), TypeExpr::named("CamlFqSrs"), TypeExpr::apply1("CamlPolyComm", TypeExpr::apply1("CamlGroupAffine", TypeExpr::named("CamlFp"))))));
    push_step(&mut steps, Step::function("caml_pasta_fq_plonk_verifier_index_create", "create"));
    push_step(&mut steps, Step::function("caml_pasta_fq_plonk_verifier_index_read", "read"));
    push_step(&mut steps, Step::function("caml_pasta_fq_plonk_verifier_index_write", "write"));
    push_step(&mut steps, Step::function("caml_pasta_fq_plonk_verifier_index_shifts", "shifts"));
    push_step(&mut steps, Step::function("caml_pasta_fq_plonk_verifier_index_dummy", "dummy"));
    push_step(&mut steps, Step::function("caml_pasta_fq_plonk_verifier_index_deep_copy", "deep_copy"));
    push_step(&mut steps, Step::CloseModule);
    push_step(&mut steps, Step::CloseModule);
    steps
}

/// The module `Protocol.Oracles`.
pub open spec fn protocol_oracles_steps() -> Seq<StepView> {
    seq![
        StepView::OpenModule { name: "Oracles"@ },
        StepView::OpenModule { name: "Fp"@ },
        StepView::Alias { name: "t"@, target: TypeExprView::applied("CamlOracles"@, seq![TypeExprView::named("CamlFp"@)]) },
        StepView::Function { native: "fp_oracles_create"@, name: "create"@ },
        StepView::Function { native: "fp_oracles_dummy"@, name: "dummy"@ },
        StepView::Function { native: "fp_oracles_deep_copy"@, name: "deep_copy"@ },
        StepView::CloseModule,
        StepView::OpenModule { name: "Fq"@ },
        StepView::Alias { name: "t"@, target: TypeExprView::applied("CamlOracles"@, seq![TypeExprView::named("CamlFq"@)]) },
        StepView::Function { native: "fq_oracles_create"@, name: "create"@ },
        StepView::Function { native: "fq_oracles_dummy"@, name: "dummy"@ },
        StepView::Function { native: "fq_oracles_deep_copy"@, name: "deep_copy"@ },
        StepView::CloseModule,
        StepView::CloseModule,
    ]
}

/// Builds [`protocol_oracles_steps`].
pub fn protocol_oracles_script() -> (steps: Vec<Step>)
    ensures
        step_views(steps@) == protocol_oracles_steps(),
{
    let mut steps: Vec<Step> = new_script();
    push_step(&mut steps, Step::module("Oracles"));
    push_step(&mut steps, Step::module("Fp"));
    push_step(&mut steps, Step::alias("t", TypeExpr::apply1("CamlOracles", TypeExpr::named("CamlFp"))));
    push_step(&mut steps, Step::function("fp_oracles_create", "create"));
    push_step(&mut steps, Step::function("fp_oracles_dummy", "dummy"));
    push_step(&mut steps, Step::function("fp_oracles_deep_copy", "deep_copy"));
    push_step(&mut steps, Step::CloseModule);
    push_step(&mut steps, Step::module("Fq"));
    push_step(&mut steps, Step::alias("t", TypeExpr::apply1("CamlOracles", TypeExpr::named("CamlFq"))));
    push_step(&mut steps, Step::function("fq_oracles_create", "create"));
    push_step(&mut steps, Step::function("fq_oracles_dummy", "dummy"));
    push_step(&mut steps, Step::function("fq_oracles_deep_copy", "deep_copy"));
    push_step(&mut steps, Step::CloseModule);
    push_step(&mut steps, Step::CloseModule);
    steps
}

/// The module `Protocol.Proof`, with the modules around it that open or close here.
pub open spec fn protocol_proof_steps() -> Seq<StepView> {
    seq![
        StepView::OpenModule { name: "Proof"@ },
        StepView::OpenModule { name: "Fp"@ },
        StepView::Function { native: "caml_pasta_fp_plonk_proof_create"@, name: "create"@ },
        StepView::Function { native: "caml_pasta_fp_plonk_proof_example_with_lookup"@, name: "example_with_lookup"@ },
        StepView::Function { native: "caml_pasta_fp_plonk_proof_example_with_ffadd"@, name: "example_with_ffadd"@ },
        StepView::Function { native: "caml_pasta_fp_plonk_proof_example_with_xor"@, name: "example_with_xor"@ },
        StepView::Function { native: "caml_pasta_fp_plonk_proof_example_with_rot"@, name: "example_with_rot"@ },
        StepView::Function { native: "caml_pasta_fp_plonk_proof_example_with_foreign_field_mul"@, name: "example_with_foreign_field_mul"@ },
        StepView::Function { native: "caml_pasta_fp_plonk_proof_example_with_range_check"@, name: "example_with_range_check"@ },
        StepView::Function { native: "caml_pasta_fp_plonk_proof_example_with_range_check0"@, name: "example_with_range_check0"@ },
        StepView::Function { native: "caml_pasta_fp_plonk_proof_verify"@, name: "verify"@ },
        StepView::Function { native: "caml_pasta_fp_plonk_proof_batch_verify"@, name: "batch_verify"@ },
        StepView::Function { native: "caml_pasta_fp_plonk_proof_dummy"@, name: "dummy"@ },
        StepView::Function { native: "caml_pasta_fp_plonk_proof_deep_copy"@, name: "deep_copy"@ },
        StepView::CloseModule,
        StepView::OpenModule { name: "Fq"@ },
        StepView::Function { native: "caml_pasta_fq_plonk_proof_create"@, name: "create"@ },
        StepView::Function { native: "caml_pasta_fq_plonk_proof_verify"@, name: "verify"@ },
        StepView::Function { native: "caml_pasta_fq_plonk_proof_batch_verify"@, name: "batch_verify"@ },
        StepView::Function { native: "caml_pasta_fq_plonk_proof_dummy"@, name: "dummy"@ },
        StepView::Function { native: "caml_pasta_fq_plonk_proof_deep_copy"@, name: "deep_copy"@ },
        StepView::CloseModule,
        StepView::CloseModule,
        StepView::CloseModule,
    ]
}

/// Builds [`protocol_proof_steps`].
pub fn protocol_proof_script() -> (steps: Vec<Step>)
    ensures
        step_views(steps@) == protocol_proof_steps(),
{
    let mut steps: Vec<Step> = new_script();
    push_step(&mut steps, Step::module("Proof"));
    push_step(&mut steps, Step::module("Fp"));
    push_step(&mut steps, Step::function("caml_pasta_fp_plonk_proof_create", "create"));
    push_step(&mut steps, Step::function("caml_pasta_fp_plonk_proof_example_with_lookup", "example_with_lookup"));
    push_step(&mut steps, Step::function("caml_pasta_fp_plonk_proof_example_with_ffadd", "example_with_ffadd"));
    push_step(&mut steps, Step::function("caml_pasta_fp_plonk_proof_example_with_xor", "example_with_xor"));
    push_step(&mut steps, Step::function("caml_pasta_fp_plonk_proof_example_with_rot", "example_with_rot"));
    push_step(&mut steps, Step::function("caml_pasta_fp_plonk_proof_example_with_foreign_field_mul", "example_with_foreign_field_mul"));
    push_step(&mut steps, Step::function("caml_pasta_fp_plonk_proof_example_with_range_check", "example_with_range_check"));
    push_step(&mut steps, Step::function("caml_pasta_fp_plonk_proof_example_with_range_check0", "example_with_range_check0"));
    push_step(&mut steps, Step::function("caml_pasta_fp_plonk_proof_verify", "verify"));
    push_step(&mut steps, Step::function("caml_pasta_fp_plonk_proof_batch_verify", "batch_verify"));
    push_step(&mut steps, Step::function("caml_pasta_fp_plonk_proof_dummy", "dummy"));
    push_step(&mut steps, Step::function("caml_pasta_fp_plonk_proof_deep_copy", "deep_copy"));
    push_step(&mut steps, Step::CloseModule);
    push_step(&mut steps, Step::module("Fq"));
    push_step(&mut steps, Step::function("caml_pasta_fq_plonk_proof_create", "create"));
    push_step(&mut steps, Step::function("caml_pasta_fq_plonk_proof_verify", "verify"));
    push_step(&mut steps, Step::function("caml_pasta_fq_plonk_proof_batch_verify", "batch_verify"));
    push_step(&mut steps, Step::function("caml_pasta_fq_plonk_proof_dummy", "dummy"));
    push_step(&mut steps, Step::function("caml_pasta_fq_plonk_proof_deep_copy", "deep_copy"));
    push_step(&mut steps, Step::CloseModule);
    push_step(&mut steps, Step::CloseModule);
    push_step(&mut steps, Step::CloseModule);
    steps
}

/// The types that this pass takes over from the passes before it, so that its
/// synonyms can name them. The script itself does not hold them: they are taken
/// over by the pass that walks the script on a state of its own.
pub open spec fn kimchi_imports_steps() -> Seq<StepView> {
    seq![
        StepView::Import { path: "Kimchi_types"@, native: "CamlGroupAffine"@, name: "or_infinity"@, arity: 1 },
        StepView::Import { path: "Kimchi_types"@, native: "CamlPolyComm"@, name: "poly_comm"@, arity: 1 },
        StepView::Import { path: "Kimchi_types"@, native: "CamlCircuitGate"@, name: "circuit_gate"@, arity: 1 },
        StepView::Import { path: "Kimchi_types"@, native: "CamlOracles"@, name: "oracles"@, arity: 1 },
        StepView::Import { path: "Kimchi_types.VerifierIndex"@, native: "CamlPlonkVerifierIndex"@, name: "verifier_index"@, arity: 3 },
        StepView::Import { path: "Pasta_bindings.Fp"@, native: "CamlFp"@, name: "t"@, arity: 0 },
        StepView::Import { path: "Pasta_bindings.Fq"@, native: "CamlFq"@, name: "t"@, arity: 0 },
    ]
}

/// Builds [`kimchi_imports_steps`].
pub fn kimchi_imports_script() -> (steps: Vec<Step>)
    ensures
        step_views(steps@) == kimchi_imports_steps(),
{
    let mut steps: Vec<Step> = new_script();
    push_step(&mut steps, Step::import("Kimchi_types", "CamlGroupAffine", "or_infinity", 1));
    push_step(&mut steps, Step::import("Kimchi_types", "CamlPolyComm", "poly_comm", 1));
    push_step(&mut steps, Step::import("Kimchi_types", "CamlCircuitGate", "circuit_gate", 1));
    push_step(&mut steps, Step::import("Kimchi_types", "CamlOracles", "oracles", 1));
    push_step(&mut steps, Step::import("Kimchi_types.VerifierIndex", "CamlPlonkVerifierIndex", "verifier_index", 3));
    push_step(&mut steps, Step::import("Pasta_bindings.Fp", "CamlFp", "t", 0));
    push_step(&mut steps, Step::import("Pasta_bindings.Fq", "CamlFq", "t", 0));
    steps
}

/// The script that declares the operations of the protocol: its parts, in order.
pub open spec fn kimchi_steps() -> Seq<StepView> {
    field_vectors_steps()
        + protocol_gates_steps()
        + protocol_srs_steps()
        + protocol_index_steps()
        + protocol_verifier_index_steps()
        + protocol_oracles_steps()
        + protocol_proof_steps()
}

/// Builds [`kimchi_steps`].
pub fn kimchi_script() -> (steps: Vec<Step>)
    ensures
        step_views(steps@) == kimchi_steps(),
{
    let mut steps: Vec<Step> = field_vectors_script();
    append_steps(&mut steps, protocol_gates_script());
    append_steps(&mut steps, protocol_srs_script());
    append_steps(&mut steps, protocol_index_script());
    append_steps(&mut steps, protocol_verifier_index_script());
    append_steps(&mut steps, protocol_oracles_script());
    append_steps(&mut steps, protocol_proof_script());
    steps
}

/// What the script that declares the operations of the protocol asks of a pass, read as an
/// outline: the pass has entered a module and done nothing in it,
/// and the native types that the synonyms of the script name are declared.
pub open spec fn kimchi_ready(outline: Outline) -> bool {
    &&& outline.at_root()
    &&& outline.declared.has("CamlFp"@)
    &&& outline.declared.has("CamlFq"@)
    &&& outline.declared.has("CamlCircuitGate"@)
    &&& outline.declared.has("CamlPolyComm"@)
    &&& outline.declared.has("CamlGroupAffine"@)
    &&& outline.declared.has("CamlPlonkVerifierIndex"@)
    &&& outline.declared.has("CamlOracles"@)
}

/// The registry declares the native types that the synonyms of the script name
/// and the script does not declare.
pub open spec fn kimchi_needs(entries: Seq<BindingView>) -> bool {
    &&& is_declared(entries, "CamlFp"@)
    &&& is_declared(entries, "CamlFq"@)
    &&& is_declared(entries, "CamlCircuitGate"@)
    &&& is_declared(entries, "CamlPolyComm"@)
    &&& is_declared(entries, "CamlGroupAffine"@)
    &&& is_declared(entries, "CamlPlonkVerifierIndex"@)
    &&& is_declared(entries, "CamlOracles"@)
}

/// The registry declares the native types of the script that the synonyms of
/// later scripts name.
pub open spec fn kimchi_offers(entries: Seq<BindingView>) -> bool {
    true
}

/// Some outline that the script can start from reads the pass.
pub open spec fn kimchi_can_run(pass: PassView) -> bool {
    exists|outline: Outline| #[trigger] outline.describes(pass) && kimchi_ready(outline)
}

/// The outline accepts [`kimchi_imports_steps`], and tells what the outline holds after.
#[verifier::spinoff_prover]
proof fn lemma_kimchi_imports_accepted(pre: Outline)
    requires
        pre.root == "Kimchi_bindings"@,
        !pre.imports.has("Kimchi_types"@, "or_infinity"@),
        !pre.imports.has("Kimchi_types"@, "poly_comm"@),
        !pre.imports.has("Kimchi_types"@, "circuit_gate"@),
        !pre.imports.has("Kimchi_types"@, "oracles"@),
        !pre.imports.has("Kimchi_types.VerifierIndex"@, "verifier_index"@),
        !pre.imports.has("Pasta_bindings.Fp"@, "t"@),
        !pre.imports.has("Pasta_bindings.Fq"@, "t"@),
    ensures
        pre.accept_from(kimchi_imports_steps(), 0) == Some(
            Outline {
                declared: pre.declared
                    .with("CamlGroupAffine"@)
                    .with("CamlPolyComm"@)
                    .with("CamlCircuitGate"@)
                    .with("CamlOracles"@)
                    .with("CamlPlonkVerifierIndex"@)
                    .with("CamlFp"@)
                    .with("CamlFq"@),
                imports: pre.imports
                    .with("Kimchi_types"@, "or_infinity"@)
                    .with("Kimchi_types"@, "poly_comm"@)
                    .with("Kimchi_types"@, "circuit_gate"@)
                    .with("Kimchi_types"@, "oracles"@)
                    .with("Kimchi_types.VerifierIndex"@, "verifier_index"@)
                    .with("Pasta_bindings.Fp"@, "t"@)
                    .with("Pasta_bindings.Fq"@, "t"@),
                ..pre
            },
        ),
{
    reveal_strlit("Kimchi_bindings");
    reveal_strlit("Kimchi_types");
    reveal_strlit("Kimchi_types.VerifierIndex");
    reveal_strlit("Pasta_bindings.Fp");
    reveal_strlit("Pasta_bindings.Fq");
    reveal_strlit("circuit_gate");
    reveal_strlit("or_infinity");
    reveal_strlit("oracles");
    reveal_strlit("poly_comm");
    reveal_strlit("t");
    reveal_strlit("verifier_index");
    reveal_with_fuel(Outline::accept_from, 8);
    reveal_with_fuel(no_separator_from, 15);
    reveal_with_fuel(Pairs::has, 8);
    reveal_with_fuel(differ_from, 16);
    assert(kimchi_imports_steps().len() == 7);
    assert(no_separator_from("circuit_gate"@, 0));
    assert(no_separator_from("or_infinity"@, 0));
    assert(no_separator_from("oracles"@, 0));
    assert(no_separator_from("poly_comm"@, 0));
    assert(no_separator_from("t"@, 0));
    assert(no_separator_from("verifier_index"@, 0));
    assert("Pasta_bindings.Fp"@[16] != "Pasta_bindings.Fq"@[16]);
}

/// The types that the pass takes over are taken over without an error by a
/// pass that has entered the module `Kimchi_bindings` and done nothing else, and
/// the script can start from the pass after.
#[verifier::spinoff_prover]
pub proof fn lemma_kimchi_imports_run(start: PassView) -> (end: Outline)
    requires
        Outline::entered("Kimchi_bindings"@, 3).describes(start),
    ensures
        start.run(kimchi_imports_steps()).1 is None,
        end.describes(start.run(kimchi_imports_steps()).0),
        kimchi_ready(end),
        end.root == "Kimchi_bindings"@,
{
    reveal_with_fuel(Texts::has, 8);
    reveal_with_fuel(Pairs::has, 2);
    let first = Outline::entered("Kimchi_bindings"@, 3);
    lemma_kimchi_imports_accepted(first);
    lemma_accepted_script(first, start, kimchi_imports_steps(), 0);
    assert(kimchi_imports_steps().skip(0) =~= kimchi_imports_steps());
    first.accept_from(kimchi_imports_steps(), 0)->Some_0
}

/// The outline accepts [`field_vectors_steps`] wherever the modules that it opens were not
/// open before, and tells what the outline holds after.
#[verifier::spinoff_prover]
proof fn lemma_field_vectors_accepted(pre: Outline)
    requires
        pre.frames is Cons,
        !pre.visited.has(pre.stack.with("FieldVectors"@)),
        !pre.visited.has(pre.stack.with("FieldVectors"@).with("Fp"@)),
        !pre.visited.has(pre.stack.with("FieldVectors"@).with("Fq"@)),
        pre.declared.has("CamlFp"@),
        pre.declared.has("CamlFq"@),
    ensures
        pre.accept_from(field_vectors_steps(), 0) == Some(
            Outline {
                visited: pre.visited
                    .with(pre.stack.with("FieldVectors"@))
                    .with(pre.stack.with("FieldVectors"@).with("Fp"@))
                    .with(pre.stack.with("FieldVectors"@).with("Fq"@)),
                declared: pre.declared.with("CamlFpVector"@).with("CamlFqVector"@),
                ..pre
            },
        ),
{
    reveal_strlit("FieldVectors");
    reveal_strlit("Fp");
    reveal_strlit("Fq");
    reveal_strlit("create");
    reveal_strlit("elt");
    reveal_strlit("emplace_back");
    reveal_strlit("get");
    reveal_strlit("length");
    reveal_strlit("set");
    reveal_strlit("t");
    reveal_with_fuel(Outline::accept_from, 21);
    reveal_with_fuel(no_separator_from, 13);
    reveal_with_fuel(Texts::has, 8);
    reveal_with_fuel(Stacks::has, 4);
    reveal_with_fuel(resolvable, 10);
    reveal_with_fuel(resolvable_first, 10);
    assert(field_vectors_steps().len() == 20);
}

/// The outline accepts [`protocol_gates_steps`] wherever the modules that it opens were not
/// open before, and tells what the outline holds after.
#[verifier::spinoff_prover]
proof fn lemma_protocol_gates_accepted(pre: Outline)
    requires
        pre.frames is Cons,
        !pre.visited.has(pre.stack.with("Protocol"@)),
        !pre.visited.has(pre.stack.with("Protocol"@).with("Gates"@)),
        !pre.visited.has(pre.stack.with("Protocol"@).with("Gates"@).with("Vector"@)),
        !pre.visited.has(pre.stack.with("Protocol"@).with("Gates"@).with("Vector"@).with("Fp"@)),
        !pre.visited.has(pre.stack.with("Protocol"@).with("Gates"@).with("Vector"@).with("Fq"@)),
        pre.declared.has("CamlCircuitGate"@),
        pre.declared.has("CamlFp"@),
        pre.declared.has("CamlFq"@),
    ensures
        pre.accept_from(protocol_gates_steps(), 0) == Some(
            Outline {
                frames: Frames::Cons("Protocol"@, Texts::Nil, Box::new(pre.frames)),
                stack: pre.stack.with("Protocol"@),
                visited: pre.visited
                    .with(pre.stack.with("Protocol"@))
                    .with(pre.stack.with("Protocol"@).with("Gates"@))
                    .with(pre.stack.with("Protocol"@).with("Gates"@).with("Vector"@))
                    .with(pre.stack.with("Protocol"@).with("Gates"@).with("Vector"@).with("Fp"@))
                    .with(pre.stack.with("Protocol"@).with("Gates"@).with("Vector"@).with("Fq"@)),
                declared: pre.declared.with("CamlPastaFpPlonkGateVector"@).with("CamlPastaFqPlonkGateVector"@),
                ..pre
            },
        ),
{
    reveal_strlit("Fp");
    reveal_strlit("Fq");
    reveal_strlit("Gates");
    reveal_strlit("Protocol");
    reveal_strlit("Vector");
    reveal_strlit("add");
    reveal_strlit("create");
    reveal_strlit("digest");
    reveal_strlit("elt");
    reveal_strlit("get");
    reveal_strlit("len");
    reveal_strlit("t");
    reveal_strlit("wrap");
    reveal_with_fuel(Outline::accept_from, 26);
    reveal_with_fuel(no_separator_from, 9);
    reveal_with_fuel(Texts::has, 9);
    reveal_with_fuel(Stacks::has, 6);
    reveal_with_fuel(resolvable, 10);
    reveal_with_fuel(resolvable_first, 10);
    assert(protocol_gates_steps().len() == 25);
}

/// The outline accepts [`protocol_srs_steps`] wherever the modules that it opens were not
/// open before, and tells what the outline holds after.
#[verifier::spinoff_prover]
proof fn lemma_protocol_srs_accepted(pre: Outline)
    requires
        pre.frames is Cons,
        !pre.visited.has(pre.stack.with("SRS"@)),
        !pre.visited.has(pre.stack.with("SRS"@).with("Fp"@)),
        !pre.visited.has(pre.stack.with("SRS"@).with("Fp"@).with("Poly_comm"@)),
        !pre.visited.has(pre.stack.with("SRS"@).with("Fq"@)),
        pre.declared.has("CamlPolyComm"@),
        pre.declared.has("CamlGroupAffine"@),
        pre.declared.has("CamlFp"@),
    ensures
        pre.accept_from(protocol_srs_steps(), 0) == Some(
            Outline {
                visited: pre.visited
                    .with(pre.stack.with("SRS"@))
                    .with(pre.stack.with("SRS"@).with("Fp"@))
                    .with(pre.stack.with("SRS"@).with("Fp"@).with("Poly_comm"@))
                    .with(pre.stack.with("SRS"@).with("Fq"@)),
                declared: pre.declared.with("CamlFpSrs"@).with("CamlFqSrs"@),
                ..pre
            },
        ),
{
    reveal_strlit("Fp");
    reveal_strlit("Fq");
    reveal_strlit("Poly_comm");
    reveal_strlit("SRS");
    reveal_strlit("add_lagrange_basis");
    reveal_strlit("b_poly_commitment");
    reveal_strlit("batch_accumulator_check");
    reveal_strlit("batch_accumulator_generate");
    reveal_strlit("commit_evaluations");
    reveal_strlit("create");
    reveal_strlit("lagrange_commitment");
    reveal_strlit("read");
    reveal_strlit("t");
    reveal_strlit("urs_h");
    reveal_strlit("write");
    reveal_with_fuel(Outline::accept_from, 32);
    reveal_with_fuel(no_separator_from, 27);
    reveal_with_fuel(Texts::has, 12);
    reveal_with_fuel(Stacks::has, 5);
    reveal_with_fuel(resolvable, 10);
    reveal_with_fuel(resolvable_first, 10);
    assert(protocol_srs_steps().len() == 31);
}

/// The outline accepts [`protocol_index_steps`] wherever the modules that it opens were not
/// open before, and tells what the outline holds after.
#[verifier::spinoff_prover]
proof fn lemma_protocol_index_accepted(pre: Outline)
    requires
        pre.frames is Cons,
        !pre.visited.has(pre.stack.with("Index"@)),
        !pre.visited.has(pre.stack.with("Index"@).with("Fp"@)),
        !pre.visited.has(pre.stack.with("Index"@).with("Fq"@)),
    ensures
        pre.accept_from(protocol_index_steps(), 0) == Some(
            Outline {
                visited: pre.visited
                    .with(pre.stack.with("Index"@))
                    .with(pre.stack.with("Index"@).with("Fp"@))
                    .with(pre.stack.with("Index"@).with("Fq"@)),
                declared: pre.declared.with("CamlPastaFpPlonkIndex"@).with("CamlPastaFqPlonkIndex"@),
                ..pre
            },
        ),
{
    reveal_strlit("Fp");
    reveal_strlit("Fq");
    reveal_strlit("Index");
    reveal_strlit("create");
    reveal_strlit("domain_d1_size");
    reveal_strlit("domain_d4_size");
    reveal_strlit("domain_d8_size");
    reveal_strlit("max_degree");
    reveal_strlit("public_inputs");
    reveal_strlit("read");
    reveal_strlit("t");
    reveal_strlit("write");
    reveal_with_fuel(Outline::accept_from, 25);
    reveal_with_fuel(no_separator_from, 15);
    reveal_with_fuel(Texts::has, 10);
    reveal_with_fuel(Stacks::has, 4);
    assert(protocol_index_steps().len() == 24);
}

/// The outline accepts [`protocol_verifier_index_steps`] wherever the modules that it opens were not
/// open before, and tells what the outline holds after.
#[verifier::spinoff_prover]
proof fn lemma_protocol_verifier_index_accepted(pre: Outline)
    requires
        pre.frames is Cons,
        !pre.visited.has(pre.stack.with("VerifierIndex"@)),
        !pre.visited.has(pre.stack.with("VerifierIndex"@).with("Fp"@)),
        !pre.visited.has(pre.stack.with("VerifierIndex"@).with("Fq"@)),
        pre.declared.has("CamlPlonkVerifierIndex"@),
        pre.declared.has("CamlFp"@),
        pre.declared.has("CamlFpSrs"@),
        pre.declared.has("CamlPolyComm"@),
        pre.declared.has("CamlGroupAffine"@),
        pre.declared.has("CamlFq"@),
        pre.declared.has("CamlFqSrs"@),
    ensures
        pre.accept_from(protocol_verifier_index_steps(), 0) == Some(
            Outline {
                visited: pre.visited
                    .with(pre.stack.with("VerifierIndex"@))
                    .with(pre.stack.with("VerifierIndex"@).with("Fp"@))
                    .with(pre.stack.with("VerifierIndex"@).with("Fq"@)),
                ..pre
            },
        ),
{
    reveal_strlit("Fp");
    reveal_strlit("Fq");
    reveal_strlit("VerifierIndex");
    reveal_strlit("create");
    reveal_strlit("deep_copy");
    reveal_strlit("dummy");
    reveal_strlit("read");
    reveal_strlit("shifts");
    reveal_strlit("t");
    reveal_strlit("write");
    reveal_with_fuel(Outline::accept_from, 21);
    reveal_with_fuel(no_separator_from, 14);
    reveal_with_fuel(Texts::has, 8);
    reveal_with_fuel(Stacks::has, 4);
    reveal_with_fuel(resolvable, 10);
    reveal_with_fuel(resolvable_first, 10);
    assert(protocol_verifier_index_steps().len() == 20);
}

/// The outline accepts [`protocol_oracles_steps`] wherever the modules that it opens were not
/// open before, and tells what the outline holds after.
#[verifier::spinoff_prover]
proof fn lemma_protocol_oracles_accepted(pre: Outline)
    requires
        pre.frames is Cons,
        !pre.visited.has(pre.stack.with("Oracles"@)),
        !pre.visited.has(pre.stack.with("Oracles"@).with("Fp"@)),
        !pre.visited.has(pre.stack.with("Oracles"@).with("Fq"@)),
        pre.declared.has("CamlOracles"@),
        pre.declared.has("CamlFp"@),
        pre.declared.has("CamlFq"@),
    ensures
        pre.accept_from(protocol_oracles_steps(), 0) == Some(
            Outline {
                visited: pre.visited
                    .with(pre.stack.with("Oracles"@))
                    .with(pre.stack.with("Oracles"@).with("Fp"@))
                    .with(pre.stack.with("Oracles"@).with("Fq"@)),
                ..pre
            },
        ),
{
    reveal_strlit("Fp");
    reveal_strlit("Fq");
    reveal_strlit("Oracles");
    reveal_strlit("create");
    reveal_strlit("deep_copy");
    reveal_strlit("dummy");
    reveal_strlit("t");
    reveal_with_fuel(Outline::accept_from, 15);
    reveal_with_fuel(no_separator_from, 10);
    reveal_with_fuel(Texts::has, 5);
    reveal_with_fuel(Stacks::has, 4);
    reveal_with_fuel(resolvable, 10);
    reveal_with_fuel(resolvable_first, 10);
    assert(protocol_oracles_steps().len() == 14);
}

/// The outline accepts [`protocol_proof_steps`] wherever the modules that it opens were not
/// open before, and tells what the outline holds after.
#[verifier::spinoff_prover]
proof fn lemma_protocol_proof_accepted(pre: Outline)
    requires
        pre.frames matches Frames::Cons(_, _, rest) && *rest is Cons,
        pre.stack is Cons,
        !pre.visited.has(pre.stack.with("Proof"@)),
        !pre.visited.has(pre.stack.with("Proof"@).with("Fp"@)),
        !pre.visited.has(pre.stack.with("Proof"@).with("Fq"@)),
    ensures
        pre.accept_from(protocol_proof_steps(), 0) == Some(
            Outline {
                frames: *pre.frames->Cons_2,
                stack: *pre.stack->Cons_1,
                visited: pre.visited
                    .with(pre.stack.with("Proof"@))
                    .with(pre.stack.with("Proof"@).with("Fp"@))
                    .with(pre.stack.with("Proof"@).with("Fq"@)),
                ..pre
            },
        ),
{
    reveal_strlit("Fp");
    reveal_strlit("Fq");
    reveal_strlit("Proof");
    reveal_strlit("batch_verify");
    reveal_strlit("create");
    reveal_strlit("deep_copy");
    reveal_strlit("dummy");
    reveal_strlit("example_with_ffadd");
    reveal_strlit("example_with_foreign_field_mul");
    reveal_strlit("example_with_lookup");
    reveal_strlit("example_with_range_check");
    reveal_strlit("example_with_range_check0");
    reveal_strlit("example_with_rot");
    reveal_strlit("example_with_xor");
    reveal_strlit("verify");
    reveal_with_fuel(Outline::accept_from, 25);
    reveal_with_fuel(no_separator_from, 31);
    reveal_with_fuel(Texts::has, 13);
    reveal_with_fuel(Stacks::has, 4);
    assert(protocol_proof_steps().len() == 24);
}

/// The script that declares the operations of the protocol runs to its end without an error from
/// every pass that an outline reads which the script can start from. The
/// outline that is handed back reads the pass after the script: the scope that
/// was open is open, and no other.
#[verifier::spinoff_prover]
#[verifier::rlimit(50)]
pub proof fn lemma_kimchi_runs(start: PassView, first: Outline) -> (end: Outline)
    requires
        first.describes(start),
        kimchi_ready(first),
    ensures
        start.run(kimchi_steps()).1 is None,
        end.describes(start.run(kimchi_steps()).0),
        end.stack == first.stack,
        end.root == first.root,
        end.imports == first.imports,
{
    reveal_strlit("FieldVectors");
    reveal_strlit("Fp");
    reveal_strlit("Fq");
    reveal_strlit("Gates");
    reveal_strlit("Index");
    reveal_strlit("Oracles");
    reveal_strlit("Poly_comm");
    reveal_strlit("Proof");
    reveal_strlit("Protocol");
    reveal_strlit("SRS");
    reveal_strlit("Vector");
    reveal_strlit("VerifierIndex");
    reveal_with_fuel(Stacks::has, 26);
    reveal_with_fuel(Texts::has, 9);
    reveal_with_fuel(no_separator_from, 14);
    assert(no_separator_from("FieldVectors"@, 0));
    assert(no_separator_from("Fp"@, 0));
    assert(no_separator_from("Fq"@, 0));
    assert(no_separator_from("Gates"@, 0));
    assert(no_separator_from("Index"@, 0));
    assert(no_separator_from("Oracles"@, 0));
    assert(no_separator_from("Poly_comm"@, 0));
    assert(no_separator_from("Proof"@, 0));
    assert(no_separator_from("Protocol"@, 0));
    assert(no_separator_from("SRS"@, 0));
    assert(no_separator_from("Vector"@, 0));
    assert(no_separator_from("VerifierIndex"@, 0));
    lemma_field_vectors_accepted(first);
    lemma_accepted_script(first, start, field_vectors_steps(), 0);
    assert(field_vectors_steps().skip(0) =~= field_vectors_steps());
    let after_field_vectors = first.accept_from(field_vectors_steps(), 0)->Some_0;
    lemma_protocol_gates_accepted(after_field_vectors);
    lemma_accepted_part(
        after_field_vectors,
        start,
        field_vectors_steps(),
        protocol_gates_steps(),
    );
    let after_protocol_gates = after_field_vectors.accept_from(protocol_gates_steps(), 0)->Some_0;
    lemma_protocol_srs_accepted(after_protocol_gates);
    lemma_accepted_part(
        after_protocol_gates,
        start,
        field_vectors_steps()
            + protocol_gates_steps(),
        protocol_srs_steps(),
    );
    let after_protocol_srs = after_protocol_gates.accept_from(protocol_srs_steps(), 0)->Some_0;
    lemma_protocol_index_accepted(after_protocol_srs);
    lemma_accepted_part(
        after_protocol_srs,
        start,
        field_vectors_steps()
            + protocol_gates_steps()
            + protocol_srs_steps(),
        protocol_index_steps(),
    );
    let after_protocol_index = after_protocol_srs.accept_from(protocol_index_steps(), 0)->Some_0;
    lemma_protocol_verifier_index_accepted(after_protocol_index);
    lemma_accepted_part(
        after_protocol_index,
        start,
        field_vectors_steps()
            + protocol_gates_steps()
            + protocol_srs_steps()
            + protocol_index_steps(),
        protocol_verifier_index_steps(),
    );
    let after_protocol_verifier_index = after_protocol_index.accept_from(protocol_verifier_index_steps(), 0)->Some_0;
    lemma_protocol_oracles_accepted(after_protocol_verifier_index);
    lemma_accepted_part(
        after_protocol_verifier_index,
        start,
        field_vectors_steps()
            + protocol_gates_steps()
            + protocol_srs_steps()
            + protocol_index_steps()
            + protocol_verifier_index_steps(),
        protocol_oracles_steps(),
    );
    let after_protocol_oracles = after_protocol_verifier_index.accept_from(protocol_oracles_steps(), 0)->Some_0;
    lemma_protocol_proof_accepted(after_protocol_oracles);
    lemma_accepted_part(
        after_protocol_oracles,
        start,
        field_vectors_steps()
            + protocol_gates_steps()
            + protocol_srs_steps()
            + protocol_index_steps()
            + protocol_verifier_index_steps()
            + protocol_oracles_steps(),
        protocol_proof_steps(),
    );
    let after_protocol_proof = after_protocol_oracles.accept_from(protocol_proof_steps(), 0)->Some_0;
    after_protocol_proof
}

} // verus!
