//! The pass that declares the two curves and their fields.
use crate::decl::TypeExpr;
use crate::decl::TypeExprView;
use crate::outline::Outline;
use crate::outline::Pairs;
use crate::outline::Stacks;
use crate::outline::Texts;
use crate::outline::differ_from;
use crate::outline::lemma_accepted_part;
use crate::outline::lemma_accepted_script;
use crate::outline::no_separator_from;
use crate::outline::resolvable;
use crate::outline::resolvable_first;
use crate::pass::PassView;
use crate::registry::BindingView;
use crate::registry::is_declared;
use crate::script::Step;
use crate::script::StepView;
use crate::script::append_steps;
use crate::script::new_script;
use crate::script::push_step;
use crate::script::step_views;
use vstd::prelude::*;

verus! {

/// The module `BigInt256`.
pub open spec fn big_int256_steps() -> Seq<StepView> {
    seq![
        StepView::OpenModule { name: "BigInt256"@ },
        StepView::Type { native: "CamlBigInteger256"@, name: "t"@, arity: 0 },
        StepView::Function { native: "caml_bigint_256_of_numeral"@, name: "of_numeral"@ },
        StepView::Function { native: "caml_bigint_256_of_decimal_string"@, name: "of_decimal_string"@ },
        StepView::Function { native: "caml_bigint_256_num_limbs"@, name: "num_limbs"@ },
        StepView::Function { native: "caml_bigint_256_bytes_per_limb"@, name: "bytes_per_limb"@ },
        StepView::Function { native: "caml_bigint_256_div"@, name: "div"@ },
        StepView::Function { native: "caml_bigint_256_compare"@, name: "compare"@ },
        StepView::Function { native: "caml_bigint_256_print"@, name: "print"@ },
        StepView::Function { native: "caml_bigint_256_to_string"@, name: "to_string"@ },
        StepView::Function { native: "caml_bigint_256_test_bit"@, name: "test_bit"@ },
        StepView::Function { native: "caml_bigint_256_to_bytes"@, name: "to_bytes"@ },
        StepView::Function { native: "caml_bigint_256_of_bytes"@, name: "of_bytes"@ },
        StepView::Function { native: "caml_bigint_256_deep_copy"@, name: "deep_copy"@ },
        StepView::CloseModule,
    ]
}

/// Builds [`big_int256_steps`].
pub fn big_int256_script() -> (steps: Vec<Step>)
    ensures
        step_views(steps@) == big_int256_steps(),
{
    let mut steps: Vec<Step> = new_script();
    push_step(&mut steps, Step::module("BigInt256"));
    push_step(&mut steps, Step::ty("CamlBigInteger256", "t", 0));
    push_step(&mut steps, Step::function("caml_bigint_256_of_numeral", "of_numeral"));
    push_step(&mut steps, Step::function("caml_bigint_256_of_decimal_string", "of_decimal_string"));
    push_step(&mut steps, Step::function("caml_bigint_256_num_limbs", "num_limbs"));
    push_step(&mut steps, Step::function("caml_bigint_256_bytes_per_limb", "bytes_per_limb"));
    push_step(&mut steps, Step::function("caml_bigint_256_div", "div"));
    push_step(&mut steps, Step::function("caml_bigint_256_compare", "compare"));
    push_step(&mut steps, Step::function("caml_bigint_256_print", "print"));
    push_step(&mut steps, Step::function("caml_bigint_256_to_string", "to_string"));
    push_step(&mut steps, Step::function("caml_bigint_256_test_bit", "test_bit"));
    push_step(&mut steps, Step::function("caml_bigint_256_to_bytes", "to_bytes"));
    push_step(&mut steps, Step::function("caml_bigint_256_of_bytes", "of_bytes"));
    push_step(&mut steps, Step::function("caml_bigint_256_deep_copy", "deep_copy"));
    push_step(&mut steps, Step::CloseModule);
    steps
}

/// The module `Fp`.
pub open spec fn fp_steps() -> Seq<StepView> {
    seq![
        StepView::OpenModule { name: "Fp"@ },
        StepView::Type { native: "CamlFp"@, name: "t"@, arity: 0 },
        StepView::Function { native: "caml_pasta_fp_size_in_bits"@, name: "size_in_bits"@ },
        StepView::Function { native: "caml_pasta_fp_size"@, name: "size"@ },
        StepView::Function { native: "caml_pasta_fp_add"@, name: "add"@ },
        StepView::Function { native: "caml_pasta_fp_sub"@, name: "sub"@ },
        StepView::Function { native: "caml_pasta_fp_negate"@, name: "negate"@ },
        StepView::Function { native: "caml_pasta_fp_mul"@, name: "mul"@ },
        StepView::Function { native: "caml_pasta_fp_div"@, name: "div"@ },
        StepView::Function { native: "caml_pasta_fp_inv"@, name: "inv"@ },
        StepView::Function { native: "caml_pasta_fp_square"@, name: "square"@ },
        StepView::Function { native: "caml_pasta_fp_is_square"@, name: "is_square"@ },
        StepView::Function { native: "caml_pasta_fp_sqrt"@, name: "sqrt"@ },
        StepView::Function { native: "caml_pasta_fp_of_int"@, name: "of_int"@ },
        StepView::Function { native: "caml_pasta_fp_to_string"@, name: "to_string"@ },
        StepView::Function { native: "caml_pasta_fp_of_string"@, name: "of_string"@ },
        StepView::Function { native: "caml_pasta_fp_print"@, name: "print"@ },
        StepView::Function { native: "caml_pasta_fp_copy"@, name: "copy"@ },
        StepView::Function { native: "caml_pasta_fp_mut_add"@, name: "mut_add"@ },
        StepView::Function { native: "caml_pasta_fp_mut_sub"@, name: "mut_sub"@ },
        StepView::Function { native: "caml_pasta_fp_mut_mul"@, name: "mut_mul"@ },
        StepView::Function { native: "caml_pasta_fp_mut_square"@, name: "mut_square"@ },
        StepView::Function { native: "caml_pasta_fp_compare"@, name: "compare"@ },
        StepView::Function { native: "caml_pasta_fp_equal"@, name: "equal"@ },
        StepView::Function { native: "caml_pasta_fp_random"@, name: "random"@ },
        StepView::Function { native: "caml_pasta_fp_rng"@, name: "rng"@ },
        StepView::Function { native: "caml_pasta_fp_to_bigint"@, name: "to_bigint"@ },
        StepView::Function { native: "caml_pasta_fp_of_bigint"@, name: "of_bigint"@ },
        StepView::Function { native: "caml_pasta_fp_two_adic_root_of_unity"@, name: "two_adic_root_of_unity"@ },
        StepView::Function { native: "caml_pasta_fp_domain_generator"@, name: "domain_generator"@ },
        StepView::Function { native: "caml_pasta_fp_to_bytes"@, name: "to_bytes"@ },
        StepView::Function { native: "caml_pasta_fp_of_bytes"@, name: "of_bytes"@ },
        StepView::Function { native: "caml_pasta_fp_deep_copy"@, name: "deep_copy"@ },
        StepView::CloseModule,
    ]
}

/// Builds [`fp_steps`].
pub fn fp_script() -> (steps: Vec<Step>)
    ensures
        step_views(steps@) == fp_steps(),
{
    let mut steps: Vec<Step> = new_script();
    push_step(&mut steps, Step::module("Fp"));
    push_step(&mut steps, Step::ty("CamlFp", "t", 0));
    push_step(&mut steps, Step::function("caml_pasta_fp_size_in_bits", "size_in_bits"));
    push_step(&mut steps, Step::function("caml_pasta_fp_size", "size"));
    push_step(&mut steps, Step::function("caml_pasta_fp_add", "add"));
    push_step(&mut steps, Step::function("caml_pasta_fp_sub", "sub"));
    push_step(&mut steps, Step::function("caml_pasta_fp_negate", "negate"));
    push_step(&mut steps, Step::function("caml_pasta_fp_mul", "mul"));
    push_step(&mut steps, Step::function("caml_pasta_fp_div", "div"));
    push_step(&mut steps, Step::function("caml_pasta_fp_inv", "inv"));
    push_step(&mut steps, Step::function("caml_pasta_fp_square", "square"));
    push_step(&mut steps, Step::function("caml_pasta_fp_is_square", "is_square"));
    push_step(&mut steps, Step::function("caml_pasta_fp_sqrt", "sqrt"));
    push_step(&mut steps, Step::function("caml_pasta_fp_of_int", "of_int"));
    push_step(&mut steps, Step::function("caml_pasta_fp_to_string", "to_string"));
    push_step(&mut steps, Step::function("caml_pasta_fp_of_string", "of_string"));
    push_step(&mut steps, Step::function("caml_pasta_fp_print", "print"));
    push_step(&mut steps, Step::function("caml_pasta_fp_copy", "copy"));
    push_step(&mut steps, Step::function("caml_pasta_fp_mut_add", "mut_add"));
    push_step(&mut steps, Step::function("caml_pasta_fp_mut_sub", "mut_sub"));
    push_step(&mut steps, Step::function("caml_pasta_fp_mut_mul", "mut_mul"));
    push_step(&mut steps, Step::function("caml_pasta_fp_mut_square", "mut_square"));
    push_step(&mut steps, Step::function("caml_pasta_fp_compare", "compare"));
    push_step(&mut steps, Step::function("caml_pasta_fp_equal", "equal"));
    push_step(&mut steps, Step::function("caml_pasta_fp_random", "random"));
    push_step(&mut steps, Step::function("caml_pasta_fp_rng", "rng"));
    push_step(&mut steps, Step::function("caml_pasta_fp_to_bigint", "to_bigint"));
    push_step(&mut steps, Step::function("caml_pasta_fp_of_bigint", "of_bigint"));
    push_step(&mut steps, Step::function("caml_pasta_fp_two_adic_root_of_unity", "two_adic_root_of_unity"));
    push_step(&mut steps, Step::function("caml_pasta_fp_domain_generator", "domain_generator"));
    push_step(&mut steps, Step::function("caml_pasta_fp_to_bytes", "to_bytes"));
    push_step(&mut steps, Step::function("caml_pasta_fp_of_bytes", "of_bytes"));
    push_step(&mut steps, Step::function("caml_pasta_fp_deep_copy", "deep_copy"));
    push_step(&mut steps, Step::CloseModule);
    steps
}

/// The module `Fq`.
pub open spec fn fq_steps() -> Seq<StepView> {
    seq![
        StepView::OpenModule { name: "Fq"@ },
        StepView::Type { native: "CamlFq"@, name: "t"@, arity: 0 },
        StepView::Function { native: "caml_pasta_fq_size_in_bits"@, name: "size_in_bits"@ },
        StepView::Function { native: "caml_pasta_fq_size"@, name: "size"@ },
        StepView::Function { native: "caml_pasta_fq_add"@, name: "add"@ },
        StepView::Function { native: "caml_pasta_fq_sub"@, name: "sub"@ },
        StepView::Function { native: "caml_pasta_fq_negate"@, name: "negate"@ },
        StepView::Function { native: "caml_pasta_fq_mul"@, name: "mul"@ },
        StepView::Function { native: "caml_pasta_fq_div"@, name: "div"@ },
        StepView::Function { native: "caml_pasta_fq_inv"@, name: "inv"@ },
        StepView::Function { native: "caml_pasta_fq_square"@, name: "square"@ },
        StepView::Function { native: "caml_pasta_fq_is_square"@, name: "is_square"@ },
        StepView::Function { native: "caml_pasta_fq_sqrt"@, name: "sqrt"@ },
        StepView::Function { native: "caml_pasta_fq_of_int"@, name: "of_int"@ },
        StepView::Function { native: "caml_pasta_fq_to_string"@, name: "to_string"@ },
        StepView::Function { native: "caml_pasta_fq_of_string"@, name: "of_string"@ },
        StepView::Function { native: "caml_pasta_fq_print"@, name: "print"@ },
        StepView::Function { native: "caml_pasta_fq_copy"@, name: "copy"@ },
        StepView::Function { native: "caml_pasta_fq_mut_add"@, name: "mut_add"@ },
        StepView::Function { native: "caml_pasta_fq_mut_sub"@, name: "mut_sub"@ },
        StepView::Function { native: "caml_pasta_fq_mut_mul"@, name: "mut_mul"@ },
        StepView::Function { native: "caml_pasta_fq_mut_square"@, name: "mut_square"@ },
        StepView::Function { native: "caml_pasta_fq_compare"@, name: "compare"@ },
        StepView::Function { native: "caml_pasta_fq_equal"@, name: "equal"@ },
        StepView::Function { native: "caml_pasta_fq_random"@, name: "random"@ },
        StepView::Function { native: "caml_pasta_fq_rng"@, name: "rng"@ },
        StepView::Function { native: "caml_pasta_fq_to_bigint"@, name: "to_bigint"@ },
        StepView::Function { native: "caml_pasta_fq_of_bigint"@, name: "of_bigint"@ },
        StepView::Function { native: "caml_pasta_fq_two_adic_root_of_unity"@, name: "two_adic_root_of_unity"@ },
        StepView::Function { native: "caml_pasta_fq_domain_generator"@, name: "domain_generator"@ },
        StepView::Function { native: "caml_pasta_fq_to_bytes"@, name: "to_bytes"@ },
        StepView::Function { native: "caml_pasta_fq_of_bytes"@, name: "of_bytes"@ },
        StepView::Function { native: "caml_pasta_fq_deep_copy"@, name: "deep_copy"@ },
        StepView::CloseModule,
    ]
}

/// Builds [`fq_steps`].
pub fn fq_script() -> (steps: Vec<Step>)
    ensures
        step_views(steps@) == fq_steps(),
{
    let mut steps: Vec<Step> = new_script();
    push_step(&mut steps, Step::module("Fq"));
    push_step(&mut steps, Step::ty("CamlFq", "t", 0));
    push_step(&mut steps, Step::function("caml_pasta_fq_size_in_bits", "size_in_bits"));
    push_step(&mut steps, Step::function("caml_pasta_fq_size", "size"));
    push_step(&mut steps, Step::function("caml_pasta_fq_add", "add"));
    push_step(&mut steps, Step::function("caml_pasta_fq_sub", "sub"));
    push_step(&mut steps, Step::function("caml_pasta_fq_negate", "negate"));
    push_step(&mut steps, Step::function("caml_pasta_fq_mul", "mul"));
    push_step(&mut steps, Step::function("caml_pasta_fq_div", "div"));
    push_step(&mut steps, Step::function("caml_pasta_fq_inv", "inv"));
    push_step(&mut steps, Step::function("caml_pasta_fq_square", "square"));
    push_step(&mut steps, Step::function("caml_pasta_fq_is_square", "is_square"));
    push_step(&mut steps, Step::function("caml_pasta_fq_sqrt", "sqrt"));
    push_step(&mut steps, Step::function("caml_pasta_fq_of_int", "of_int"));
    push_step(&mut steps, Step::function("caml_pasta_fq_to_string", "to_string"));
    push_step(&mut steps, Step::function("caml_pasta_fq_of_string", "of_string"));
    push_step(&mut steps, Step::function("caml_pasta_fq_print", "print"));
    push_step(&mut steps, Step::function("caml_pasta_fq_copy", "copy"));
    push_step(&mut steps, Step::function("caml_pasta_fq_mut_add", "mut_add"));
    push_step(&mut steps, Step::function("caml_pasta_fq_mut_sub", "mut_sub"));
    push_step(&mut steps, Step::function("caml_pasta_fq_mut_mul", "mut_mul"));
    push_step(&mut steps, Step::function("caml_pasta_fq_mut_square", "mut_square"));
    push_step(&mut steps, Step::function("caml_pasta_fq_compare", "compare"));
    push_step(&mut steps, Step::function("caml_pasta_fq_equal", "equal"));
    push_step(&mut steps, Step::function("caml_pasta_fq_random", "random"));
    push_step(&mut steps, Step::function("caml_pasta_fq_rng", "rng"));
    push_step(&mut steps, Step::function("caml_pasta_fq_to_bigint", "to_bigint"));
    push_step(&mut steps, Step::function("caml_pasta_fq_of_bigint", "of_bigint"));
    push_step(&mut steps, Step::function("caml_pasta_fq_two_adic_root_of_unity", "two_adic_root_of_unity"));
    push_step(&mut steps, Step::function("caml_pasta_fq_domain_generator", "domain_generator"));
    push_step(&mut steps, Step::function("caml_pasta_fq_to_bytes", "to_bytes"));
    push_step(&mut steps, Step::function("caml_pasta_fq_of_bytes", "of_bytes"));
    push_step(&mut steps, Step::function("caml_pasta_fq_deep_copy", "deep_copy"));
    push_step(&mut steps, Step::CloseModule);
    steps
}

/// The module `Vesta`.
pub open spec fn vesta_steps() -> Seq<StepView> {
    seq![
        StepView::OpenModule { name: "Vesta"@ },
        StepView::OpenModule { name: "BaseField"@ },
        StepView::Alias { name: "t"@, target: TypeExprView::named("CamlFq"@) },
        StepView::CloseModule,
        StepView::OpenModule { name: "ScalarField"@ },
        StepView::Alias { name: "t"@, target: TypeExprView::named("CamlFp"@) },
        StepView::CloseModule,
        StepView::OpenModule { name: "Affine"@ },
        StepView::Alias { name: "t"@, target: TypeExprView::applied("CamlGroupAffine"@, seq![TypeExprView::named("CamlFq"@)]) },
        StepView::CloseModule,
        StepView::Type { native: "CamlGroupProjectiveVesta"@, name: "t"@, arity: 0 },
        StepView::Function { native: "caml_vesta_one"@, name: "one"@ },
        StepView::Function { native: "caml_vesta_add"@, name: "add"@ },
        StepView::Function { native: "caml_vesta_sub"@, name: "sub"@ },
        StepView::Function { native: "caml_vesta_negate"@, name: "negate"@ },
        StepView::Function { native: "caml_vesta_double"@, name: "double"@ },
        StepView::Function { native: "caml_vesta_scale"@, name: "scale"@ },
        StepView::Function { native: "caml_vesta_random"@, name: "random"@ },
        StepView::Function { native: "caml_vesta_rng"@, name: "rng"@ },
        StepView::Function { native: "caml_vesta_endo_base"@, name: "endo_base"@ },
        StepView::Function { native: "caml_vesta_endo_scalar"@, name: "endo_scalar"@ },
        StepView::Function { native: "caml_vesta_to_affine"@, name: "to_affine"@ },
        StepView::Function { native: "caml_vesta_of_affine"@, name: "of_affine"@ },
        StepView::Function { native: "caml_vesta_of_affine_coordinates"@, name: "of_affine_coordinates"@ },
        StepView::Function { native: "caml_vesta_affine_deep_copy"@, name: "deep_copy"@ },
        StepView::CloseModule,
    ]
}

/// Builds [`vesta_steps`].
pub fn vesta_script() -> (steps: Vec<Step>)
    ensures
        step_views(steps@) == vesta_steps(),
{
    let mut steps: Vec<Step> = new_script();
    push_step(&mut steps, Step::module("Vesta"));
    push_step(&mut steps, Step::module("BaseField"));
    push_step(&mut steps, Step::alias("t", TypeExpr::named("CamlFq")));
    push_step(&mut steps, Step::CloseModule);
    push_step(&mut steps, Step::module("ScalarField"));
    push_step(&mut steps, Step::alias("t", TypeExpr::named("CamlFp")));
    push_step(&mut steps, Step::CloseModule);
    push_step(&mut steps, Step::module("Affine"));
    push_step(&mut steps, Step::alias("t", TypeExpr::apply1("CamlGroupAffine", TypeExpr::named("CamlFq"))));
    push_step(&mut steps, Step::CloseModule);
    push_step(&mut steps, Step::ty("CamlGroupProjectiveVesta", "t", 0));
    push_step(&mut steps, Step::function("caml_vesta_one", "one"));
    push_step(&mut steps, Step::function("caml_vesta_add", "add"));
    push_step(&mut steps, Step::function("caml_vesta_sub", "sub"));
    push_step(&mut steps, Step::function("caml_vesta_negate", "negate"));
    push_step(&mut steps, Step::function("caml_vesta_double", "double"));
    push_step(&mut steps, Step::function("caml_vesta_scale", "scale"));
    push_step(&mut steps, Step::function("caml_vesta_random", "random"));
    push_step(&mut steps, Step::function("caml_vesta_rng", "rng"));
    push_step(&mut steps, Step::function("caml_vesta_endo_base", "endo_base"));
    push_step(&mut steps, Step::function("caml_vesta_endo_scalar", "endo_scalar"));
    push_step(&mut steps, Step::function("caml_vesta_to_affine", "to_affine"));
    push_step(&mut steps, Step::function("caml_vesta_of_affine", "of_affine"));
    push_step(&mut steps, Step::function("caml_vesta_of_affine_coordinates", "of_affine_coordinates"));
    push_step(&mut steps, Step::function("caml_vesta_affine_deep_copy", "deep_copy"));
    push_step(&mut steps, Step::CloseModule);
    steps
}

/// The module `Pallas`.
pub open spec fn pallas_steps() -> Seq<StepView> {
    seq![
        StepView::OpenModule { name: "Pallas"@ },
        StepView::OpenModule { name: "BaseField"@ },
        StepView::Alias { name: "t"@, target: TypeExprView::named("CamlFp"@) },
        StepView::CloseModule,
        StepView::OpenModule { name: "ScalarField"@ },
        StepView::Alias { name: "t"@, target: TypeExprView::named("CamlFq"@) },
        StepView::CloseModule,
        StepView::OpenModule { name: "Affine"@ },
        StepView::Alias { name: "t"@, target: TypeExprView::applied("CamlGroupAffine"@, seq![TypeExprView::named("CamlFp"@)]) },
        StepView::CloseModule,
        StepView::Type { native: "CamlGroupProjectivePallas"@, name: "t"@, arity: 0 },
        StepView::Function { native: "caml_pallas_one"@, name: "one"@ },
        StepView::Function { native: "caml_pallas_add"@, name: "add"@ },
        StepView::Function { native: "caml_pallas_sub"@, name: "sub"@ },
        StepView::Function { native: "caml_pallas_negate"@, name: "negate"@ },
        StepView::Function { native: "caml_pallas_double"@, name: "double"@ },
        StepView::Function { native: "caml_pallas_scale"@, name: "scale"@ },
        StepView::Function { native: "caml_pallas_random"@, name: "random"@ },
        StepView::Function { native: "caml_pallas_rng"@, name: "rng"@ },
        StepView::Function { native: "caml_pallas_endo_base"@, name: "endo_base"@ },
        StepView::Function { native: "caml_pallas_endo_scalar"@, name: "endo_scalar"@ },
        StepView::Function { native: "caml_pallas_to_affine"@, name: "to_affine"@ },
        StepView::Function { native: "caml_pallas_of_affine"@, name: "of_affine"@ },
        StepView::Function { native: "caml_pallas_of_affine_coordinates"@, name: "of_affine_coordinates"@ },
        StepView::Function { native: "caml_pallas_affine_deep_copy"@, name: "deep_copy"@ },
        StepView::CloseModule,
    ]
}

/// Builds [`pallas_steps`].
pub fn pallas_script() -> (steps: Vec<Step>)
    ensures
        step_views(steps@) == pallas_steps(),
{
    let mut steps: Vec<Step> = new_script();
    push_step(&mut steps, Step::module("Pallas"));
    push_step(&mut steps, Step::module("BaseField"));
    push_step(&mut steps, Step::alias("t", TypeExpr::named("CamlFp")));
    push_step(&mut steps, Step::CloseModule);
    push_step(&mut steps, Step::module("ScalarField"));
    push_step(&mut steps, Step::alias("t", TypeExpr::named("CamlFq")));
    push_step(&mut steps, Step::CloseModule);
    push_step(&mut steps, Step::module("Affine"));
    push_step(&mut steps, Step::alias("t", TypeExpr::apply1("CamlGroupAffine", TypeExpr::named("CamlFp"))));
    push_step(&mut steps, Step::CloseModule);
    push_step(&mut steps, Step::ty("CamlGroupProjectivePallas", "t", 0));
    push_step(&mut steps, Step::function("caml_pallas_one", "one"));
    push_step(&mut steps, Step::function("caml_pallas_add", "add"));
    push_step(&mut steps, Step::function("caml_pallas_sub", "sub"));
    push_step(&mut steps, Step::function("caml_pallas_negate", "negate"));
    push_step(&mut steps, Step::function("caml_pallas_double", "double"));
    push_step(&mut steps, Step::function("caml_pallas_scale", "scale"));
    push_step(&mut steps, Step::function("caml_pallas_random", "random"));
    push_step(&mut steps, Step::function("caml_pallas_rng", "rng"));
    push_step(&mut steps, Step::function("caml_pallas_endo_base", "endo_base"));
    push_step(&mut steps, Step::function("caml_pallas_endo_scalar", "endo_scalar"));
    push_step(&mut steps, Step::function("caml_pallas_to_affine", "to_affine"));
    push_step(&mut steps, Step::function("caml_pallas_of_affine", "of_affine"));
    push_step(&mut steps, Step::function("caml_pallas_of_affine_coordinates", "of_affine_coordinates"));
    push_step(&mut steps, Step::function("caml_pallas_affine_deep_copy", "deep_copy"));
    push_step(&mut steps, Step::CloseModule);
    steps
}

/// The types that this pass takes over from the passes before it, so that its
/// synonyms can name them. The script itself does not hold them: they are taken
/// over by the pass that walks the script on a state of its own.
pub open spec fn pasta_imports_steps() -> Seq<StepView> {
    seq![
        StepView::Import { path: "Kimchi_types"@, native: "CamlGroupAffine"@, name: "or_infinity"@, arity: 1 },
    ]
}

/// Builds [`pasta_imports_steps`].
pub fn pasta_imports_script() -> (steps: Vec<Step>)
    ensures
        step_views(steps@) == pasta_imports_steps(),
{
    let mut steps: Vec<Step> = new_script();
    push_step(&mut steps, Step::import("Kimchi_types", "CamlGroupAffine", "or_infinity", 1));
    steps
}

/// The script that declares the two curves and their fields: its parts, in order.
pub open spec fn pasta_steps() -> Seq<StepView> {
    big_int256_steps()
        + fp_steps()
        + fq_steps()
        + vesta_steps()
        + pallas_steps()
}

/// Builds [`pasta_steps`].
pub fn pasta_script() -> (steps: Vec<Step>)
    ensures
        step_views(steps@) == pasta_steps(),
{
    let mut steps: Vec<Step> = big_int256_script();
    append_steps(&mut steps, fp_script());
    append_steps(&mut steps, fq_script());
    append_steps(&mut steps, vesta_script());
    append_steps(&mut steps, pallas_script());
    steps
}

/// What the script that declares the two curves and their fields asks of a pass, read as an
/// outline: the pass has entered a module and done nothing in it,
/// and the native types that the synonyms of the script name are declared.
pub open spec fn pasta_ready(outline: Outline) -> bool {
    &&& outline.at_root()
    &&& outline.declared.has("CamlGroupAffine"@)
}

/// The registry declares the native types that the synonyms of the script name
/// and the script does not declare.
pub open spec fn pasta_needs(entries: Seq<BindingView>) -> bool {
    &&& is_declared(entries, "CamlGroupAffine"@)
}

/// The registry declares the native types of the script that the synonyms of
/// later scripts name.
pub open spec fn pasta_offers(entries: Seq<BindingView>) -> bool {
    &&& is_declared(entries, "CamlFp"@)
    &&& is_declared(entries, "CamlFq"@)
}

/// Some outline that the script can start from reads the pass.
pub open spec fn pasta_can_run(pass: PassView) -> bool {
    exists|outline: Outline| #[trigger] outline.describes(pass) && pasta_ready(outline)
}

/// The outline accepts [`pasta_imports_steps`], and tells what the outline holds after.
#[verifier::spinoff_prover]
proof fn lemma_pasta_imports_accepted(pre: Outline)
    requires
        pre.root == "Pasta_bindings"@,
        !pre.imports.has("Kimchi_types"@, "or_infinity"@),
    ensures
        pre.accept_from(pasta_imports_steps(), 0) == Some(
            Outline {
                declared: pre.declared.with("CamlGroupAffine"@),
                imports: pre.imports
                    .with("Kimchi_types"@, "or_infinity"@),
                ..pre
            },
        ),
{
    reveal_strlit("Kimchi_types");
    reveal_strlit("Pasta_bindings");
    reveal_strlit("or_infinity");
    reveal_with_fuel(Outline::accept_from, 2);
    reveal_with_fuel(no_separator_from, 12);
    reveal_with_fuel(Pairs::has, 2);
    reveal_with_fuel(differ_from, 15);
    assert(pasta_imports_steps().len() == 1);
    assert(no_separator_from("or_infinity"@, 0));
}

/// The types that the pass takes over are taken over without an error by a
/// pass that has entered the module `Pasta_bindings` and done nothing else, and
/// the script can start from the pass after.
#[verifier::spinoff_prover]
pub proof fn lemma_pasta_imports_run(start: PassView) -> (end: Outline)
    requires
        Outline::entered("Pasta_bindings"@, 3).describes(start),
    ensures
        start.run(pasta_imports_steps()).1 is None,
        end.describes(start.run(pasta_imports_steps()).0),
        pasta_ready(end),
        end.root == "Pasta_bindings"@,
{
    reveal_with_fuel(Texts::has, 2);
    reveal_with_fuel(Pairs::has, 2);
    let first = Outline::entered("Pasta_bindings"@, 3);
    lemma_pasta_imports_accepted(first);
    lemma_accepted_script(first, start, pasta_imports_steps(), 0);
    assert(pasta_imports_steps().skip(0) =~= pasta_imports_steps());
    first.accept_from(pasta_imports_steps(), 0)->Some_0
}

/// The outline accepts [`big_int256_steps`] wherever the modules that it opens were not
/// open before, and tells what the outline holds after.
#[verifier::spinoff_prover]
proof fn lemma_big_int256_accepted(pre: Outline)
    requires
        pre.frames is Cons,
        !pre.visited.has(pre.stack.with("BigInt256"@)),
    ensures
        pre.accept_from(big_int256_steps(), 0) == Some(
            Outline {
                visited: pre.visited
                    .with(pre.stack.with("BigInt256"@)),
                declared: pre.declared.with("CamlBigInteger256"@),
                ..pre
            },
        ),
{
    reveal_strlit("BigInt256");
    reveal_strlit("bytes_per_limb");
    reveal_strlit("compare");
    reveal_strlit("deep_copy");
    reveal_strlit("div");
    reveal_strlit("num_limbs");
    reveal_strlit("of_bytes");
    reveal_strlit("of_decimal_string");
    reveal_strlit("of_numeral");
    reveal_strlit("print");
    reveal_strlit("t");
    reveal_strlit("test_bit");
    reveal_strlit("to_bytes");
    reveal_strlit("to_string");
    reveal_with_fuel(Outline::accept_from, 16);
    reveal_with_fuel(no_separator_from, 18);
    reveal_with_fuel(Texts::has, 14);
    reveal_with_fuel(Stacks::has, 2);
    assert(big_int256_steps().len() == 15);
}

/// The outline accepts [`fp_steps`] wherever the modules that it opens were not
/// open before, and tells what the outline holds after.
#[verifier::spinoff_prover]
proof fn lemma_fp_accepted(pre: Outline)
    requires
        pre.frames is Cons,
        !pre.visited.has(pre.stack.with("Fp"@)),
    ensures
        pre.accept_from(fp_steps(), 0) == Some(
            Outline {
                visited: pre.visited
                    .with(pre.stack.with("Fp"@)),
                declared: pre.declared.with("CamlFp"@),
                ..pre
            },
        ),
{
    reveal_strlit("Fp");
    reveal_strlit("add");
    reveal_strlit("compare");
    reveal_strlit("copy");
    reveal_strlit("deep_copy");
    reveal_strlit("div");
    reveal_strlit("domain_generator");
    reveal_strlit("equal");
    reveal_strlit("inv");
    reveal_strlit("is_square");
    reveal_strlit("mul");
    reveal_strlit("mut_add");
    reveal_strlit("mut_mul");
    reveal_strlit("mut_square");
    reveal_strlit("mut_sub");
    reveal_strlit("negate");
    reveal_strlit("of_bigint");
    reveal_strlit("of_bytes");
    reveal_strlit("of_int");
    reveal_strlit("of_string");
    reveal_strlit("print");
    reveal_strlit("random");
    reveal_strlit("rng");
    reveal_strlit("size");
    reveal_strlit("size_in_bits");
    reveal_strlit("sqrt");
    reveal_strlit("square");
    reveal_strlit("sub");
    reveal_strlit("t");
    reveal_strlit("to_bigint");
    reveal_strlit("to_bytes");
    reveal_strlit("to_string");
    reveal_strlit("two_adic_root_of_unity");
    reveal_with_fuel(Outline::accept_from, 35);
    reveal_with_fuel(no_separator_from, 23);
    reveal_with_fuel(Texts::has, 33);
    reveal_with_fuel(Stacks::has, 2);
    assert(fp_steps().len() == 34);
}

/// The outline accepts [`fq_steps`] wherever the modules that it opens were not
/// open before, and tells what the outline holds after.
#[verifier::spinoff_prover]
proof fn lemma_fq_accepted(pre: Outline)
    requires
        pre.frames is Cons,
        !pre.visited.has(pre.stack.with("Fq"@)),
    ensures
        pre.accept_from(fq_steps(), 0) == Some(
            Outline {
                visited: pre.visited
                    .with(pre.stack.with("Fq"@)),
                declared: pre.declared.with("CamlFq"@),
                ..pre
            },
        ),
{
    reveal_strlit("Fq");
    reveal_strlit("add");
    reveal_strlit("compare");
    reveal_strlit("copy");
    reveal_strlit("deep_copy");
    reveal_strlit("div");
    reveal_strlit("domain_generator");
    reveal_strlit("equal");
    reveal_strlit("inv");
    reveal_strlit("is_square");
    reveal_strlit("mul");
    reveal_strlit("mut_add");
    reveal_strlit("mut_mul");
    reveal_strlit("mut_square");
    reveal_strlit("mut_sub");
    reveal_strlit("negate");
    reveal_strlit("of_bigint");
    reveal_strlit("of_bytes");
    reveal_strlit("of_int");
    reveal_strlit("of_string");
    reveal_strlit("print");
    reveal_strlit("random");
    reveal_strlit("rng");
    reveal_strlit("size");
    reveal_strlit("size_in_bits");
    reveal_strlit("sqrt");
    reveal_strlit("square");
    reveal_strlit("sub");
    reveal_strlit("t");
    reveal_strlit("to_bigint");
    reveal_strlit("to_bytes");
    reveal_strlit("to_string");
    reveal_strlit("two_adic_root_of_unity");
    reveal_with_fuel(Outline::accept_from, 35);
    reveal_with_fuel(no_separator_from, 23);
    reveal_with_fuel(Texts::has, 33);
    reveal_with_fuel(Stacks::has, 2);
    assert(fq_steps().len() == 34);
}

/// The outline accepts [`vesta_steps`] wherever the modules that it opens were not
/// open before, and tells what the outline holds after.
#[verifier::spinoff_prover]
proof fn lemma_vesta_accepted(pre: Outline)
    requires
        pre.frames is Cons,
        !pre.visited.has(pre.stack.with("Vesta"@)),
        !pre.visited.has(pre.stack.with("Vesta"@).with("BaseField"@)),
        !pre.visited.has(pre.stack.with("Vesta"@).with("ScalarField"@)),
        !pre.visited.has(pre.stack.with("Vesta"@).with("Affine"@)),
        pre.declared.has("CamlFq"@),
        pre.declared.has("CamlFp"@),
        pre.declared.has("CamlGroupAffine"@),
    ensures
        pre.accept_from(vesta_steps(), 0) == Some(
            Outline {
                visited: pre.visited
                    .with(pre.stack.with("Vesta"@))
                    .with(pre.stack.with("Vesta"@).with("BaseField"@))
                    .with(pre.stack.with("Vesta"@).with("ScalarField"@))
                    .with(pre.stack.with("Vesta"@).with("Affine"@)),
                declared: pre.declared.with("CamlGroupProjectiveVesta"@),
                ..pre
            },
        ),
{
    reveal_strlit("Affine");
    reveal_strlit("BaseField");
    reveal_strlit("ScalarField");
    reveal_strlit("Vesta");
    reveal_strlit("add");
    reveal_strlit("deep_copy");
    reveal_strlit("double");
    reveal_strlit("endo_base");
    reveal_strlit("endo_scalar");
    reveal_strlit("negate");
    reveal_strlit("of_affine");
    reveal_strlit("of_affine_coordinates");
    reveal_strlit("one");
    reveal_strlit("random");
    reveal_strlit("rng");
    reveal_strlit("scale");
    reveal_strlit("sub");
    reveal_strlit("t");
    reveal_strlit("to_affine");
    reveal_with_fuel(Outline::accept_from, 27);
    reveal_with_fuel(no_separator_from, 22);
    reveal_with_fuel(Texts::has, 16);
    reveal_with_fuel(Stacks::has, 5);
    reveal_with_fuel(resolvable, 10);
    reveal_with_fuel(resolvable_first, 10);
    assert(vesta_steps().len() == 26);
}

/// The outline accepts [`pallas_steps`] wherever the modules that it opens were not
/// open before, and tells what the outline holds after.
#[verifier::spinoff_prover]
proof fn lemma_pallas_accepted(pre: Outline)
    requires
        pre.frames is Cons,
        !pre.visited.has(pre.stack.with("Pallas"@)),
        !pre.visited.has(pre.stack.with("Pallas"@).with("BaseField"@)),
        !pre.visited.has(pre.stack.with("Pallas"@).with("ScalarField"@)),
        !pre.visited.has(pre.stack.with("Pallas"@).with("Affine"@)),
        pre.declared.has("CamlFp"@),
        pre.declared.has("CamlFq"@),
        pre.declared.has("CamlGroupAffine"@),
    ensures
        pre.accept_from(pallas_steps(), 0) == Some(
            Outline {
                visited: pre.visited
                    .with(pre.stack.with("Pallas"@))
                    .with(pre.stack.with("Pallas"@).with("BaseField"@))
                    .with(pre.stack.with("Pallas"@).with("ScalarField"@))
                    .with(pre.stack.with("Pallas"@).with("Affine"@)),
                declared: pre.declared.with("CamlGroupProjectivePallas"@),
                ..pre
            },
        ),
{
    reveal_strlit("Affine");
    reveal_strlit("BaseField");
    reveal_strlit("Pallas");
    reveal_strlit("ScalarField");
    reveal_strlit("add");
    reveal_strlit("deep_copy");
    reveal_strlit("double");
    reveal_strlit("endo_base");
    reveal_strlit("endo_scalar");
    reveal_strlit("negate");
    reveal_strlit("of_affine");
    reveal_strlit("of_affine_coordinates");
    reveal_strlit("one");
    reveal_strlit("random");
    reveal_strlit("rng");
    reveal_strlit("scale");
    reveal_strlit("sub");
    reveal_strlit("t");
    reveal_strlit("to_affine");
    reveal_with_fuel(Outline::accept_from, 27);
    reveal_with_fuel(no_separator_from, 22);
    reveal_with_fuel(Texts::has, 16);
    reveal_with_fuel(Stacks::has, 5);
    reveal_with_fuel(resolvable, 10);
    reveal_with_fuel(resolvable_first, 10);
    assert(pallas_steps().len() == 26);
}

/// The script that declares the two curves and their fields runs to its end without an error from
/// every pass that an outline reads which the script can start from. The
/// outline that is handed back reads the pass after the script: the scope that
/// was open is open, and no other.
#[verifier::spinoff_prover]
#[verifier::rlimit(50)]
pub proof fn lemma_pasta_runs(start: PassView, first: Outline) -> (end: Outline)
    requires
        first.describes(start),
        pasta_ready(first),
    ensures
        start.run(pasta_steps()).1 is None,
        end.describes(start.run(pasta_steps()).0),
        end.stack == first.stack,
        end.root == first.root,
        end.imports == first.imports,
        end.declared.has("CamlFp"@),
        end.declared.has("CamlFq"@),
{
    reveal_strlit("Affine");
    reveal_strlit("BaseField");
    reveal_strlit("BigInt256");
    reveal_strlit("Fp");
    reveal_strlit("Fq");
    reveal_strlit("Pallas");
    reveal_strlit("ScalarField");
    reveal_strlit("Vesta");
    reveal_with_fuel(Stacks::has, 13);
    reveal_with_fuel(Texts::has, 6);
    reveal_with_fuel(no_separator_from, 12);
    assert(no_separator_from("Affine"@, 0));
    assert(no_separator_from("BaseField"@, 0));
    assert(no_separator_from("BigInt256"@, 0));
    assert(no_separator_from("Fp"@, 0));
    assert(no_separator_from("Fq"@, 0));
    assert(no_separator_from("Pallas"@, 0));
    assert(no_separator_from("ScalarField"@, 0));
    assert(no_separator_from("Vesta"@, 0));
    lemma_big_int256_accepted(first);
    lemma_accepted_script(first, start, big_int256_steps(), 0);
    assert(big_int256_steps().skip(0) =~= big_int256_steps());
    let after_big_int256 = first.accept_from(big_int256_steps(), 0)->Some_0;
    lemma_fp_accepted(after_big_int256);
    lemma_accepted_part(
        after_big_int256,
        start,
        big_int256_steps(),
        fp_steps(),
    );
    let after_fp = after_big_int256.accept_from(fp_steps(), 0)->Some_0;
    lemma_fq_accepted(after_fp);
    lemma_accepted_part(
        after_fp,
        start,
        big_int256_steps()
            + fp_steps(),
        fq_steps(),
    );
    let after_fq = after_fp.accept_from(fq_steps(), 0)->Some_0;
    lemma_vesta_accepted(after_fq);
    lemma_accepted_part(
        after_fq,
        start,
        big_int256_steps()
            + fp_steps()
            + fq_steps(),
        vesta_steps(),
    );
    let after_vesta = after_fq.accept_from(vesta_steps(), 0)->Some_0;
    lemma_pallas_accepted(after_vesta);
    lemma_accepted_part(
        after_vesta,
        start,
        big_int256_steps()
            + fp_steps()
            + fq_steps()
            + vesta_steps(),
        pallas_steps(),
    );
    let after_pallas = after_vesta.accept_from(pallas_steps(), 0)->Some_0;
    after_pallas
}

} // verus!
