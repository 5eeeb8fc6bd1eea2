use declgen::campaign::campaign;
use declgen::campaign::generate_kimchi_bindings;
use declgen::campaign::generate_pasta_bindings;
use declgen::campaign::generate_snarky_bindings;
use declgen::campaign::generate_types_bindings;
use declgen::campaign::kimchi::kimchi_imports_script;
use declgen::campaign::kimchi::kimchi_script;
use declgen::campaign::pasta::pasta_imports_script;
use declgen::campaign::pasta::pasta_script;
use declgen::campaign::root_module;
use declgen::campaign::run_pass;
use declgen::campaign::snarky::snarky_script;
use declgen::campaign::take_over_types;
use declgen::campaign::types::types_script;
use declgen::campaign::PassKind;
use declgen::campaign::SLOTS;
use declgen::error::GenError;
use declgen::pass::Pass;
use declgen::script::Step;

const HEADER: &str = "(* This file is generated automatically with ocaml_gen. *)";

#[test]
fn the_campaign_runs_four_passes_in_order() {
    assert_eq!(campaign(), vec![PassKind::Types, PassKind::Pasta, PassKind::Kimchi, PassKind::Snarky]);
    assert_eq!(SLOTS, 3);
}

#[test]
fn each_pass_has_a_root_module() {
    assert_eq!(root_module(PassKind::Types), "Kimchi_types");
    assert_eq!(root_module(PassKind::Pasta), "Pasta_bindings");
    assert_eq!(root_module(PassKind::Kimchi), "Kimchi_bindings");
    assert_eq!(root_module(PassKind::Snarky), "Snarky_bindings");
}

#[test]
fn the_scripts_have_their_lengths() {
    assert_eq!(types_script().len(), 32);
    assert_eq!(pasta_script().len(), 135);
    assert_eq!(kimchi_script().len(), 158);
    assert_eq!(snarky_script().len(), 109);
}

#[test]
fn the_types_pass_writes_its_sink() {
    let lines = run_pass(PassKind::Types, false).unwrap();
    let expected = vec![
        "(* This file is generated automatically with ocaml_gen. *)",
        "type 'T1 Kimchi_types.or_infinity",
        "type 'T1 Kimchi_types.scalar_challenge",
        "type 'T1 Kimchi_types.random_oracles",
        "type 'T1 Kimchi_types.point_evaluations",
        "type 'T1 Kimchi_types.lookup_evaluations",
        "type 'T1 Kimchi_types.proof_evaluations",
        "type 'T1 Kimchi_types.poly_comm",
        "type ('T1, 'T2) Kimchi_types.recursion_challenge",
        "type ('T1, 'T2) Kimchi_types.opening_proof",
        "type 'T1 Kimchi_types.lookup_commitments",
        "type 'T1 Kimchi_types.prover_commitments",
        "type ('T1, 'T2) Kimchi_types.prover_proof",
        "type Kimchi_types.wire",
        "type Kimchi_types.gate_type",
        "type Kimchi_types.lookup_pattern",
        "type Kimchi_types.lookup_patterns",
        "type Kimchi_types.lookup_features",
        "type Kimchi_types.feature_flag",
        "type 'T1 Kimchi_types.circuit_gate",
        "type Kimchi_types.curr_or_next",
        "type 'T1 Kimchi_types.oracles",
        "module Kimchi_types.VerifierIndex = struct",
        "module Kimchi_types.VerifierIndex.Lookup = struct",
        "type Kimchi_types.VerifierIndex.Lookup.lookups_used",
        "type Kimchi_types.VerifierIndex.Lookup.lookup_info",
        "type 'T1 Kimchi_types.VerifierIndex.Lookup.lookup_selectors",
        "type 'T1 Kimchi_types.VerifierIndex.Lookup.t",
        "end",
        "type 'T1 Kimchi_types.VerifierIndex.domain",
        "type 'T1 Kimchi_types.VerifierIndex.verification_evals",
        "type ('T1, 'T2, 'T3) Kimchi_types.VerifierIndex.verifier_index",
        "end",
    ];
    assert_eq!(lines, expected);
}

#[test]
fn the_types_pass_can_nest_its_root_module() {
    let lines = run_pass(PassKind::Types, true).unwrap();
    assert_eq!(lines.len(), 35);
    assert_eq!(lines[0], HEADER);
    assert_eq!(lines[1], "module Kimchi_types = struct");
    assert_eq!(lines[2], "type 'T1 Kimchi_types.or_infinity");
    assert_eq!(lines[34], "end");
    let bare = run_pass(PassKind::Types, false).unwrap();
    assert_eq!(lines[2..34], bare[1..]);
}

#[test]
fn the_pasta_pass_writes_its_sink() {
    let lines = run_pass(PassKind::Pasta, false).unwrap();
    assert_eq!(lines.len(), 136);
    assert_eq!(lines[0], HEADER);
    assert_eq!(lines[1], "module Pasta_bindings.BigInt256 = struct");
    assert_eq!(lines[2], "type Pasta_bindings.BigInt256.t");
    assert_eq!(lines[3], "external Pasta_bindings.BigInt256.of_numeral = \"caml_bigint_256_of_numeral\"");
    assert_eq!(lines[68], "external Pasta_bindings.Fq.mut_add = \"caml_pasta_fq_mut_add\"");
    assert_eq!(lines[134], "external Pasta_bindings.Pallas.deep_copy = \"caml_pallas_affine_deep_copy\"");
    assert_eq!(lines[135], "end");
    let nested = run_pass(PassKind::Pasta, true).unwrap();
    assert_eq!(nested.len(), 138);
    assert_eq!(nested[1], "module Pasta_bindings = struct");
    assert_eq!(nested[137], "end");
    assert_eq!(nested[2..137], lines[1..]);
}

#[test]
fn the_kimchi_pass_writes_its_sink() {
    let lines = run_pass(PassKind::Kimchi, false).unwrap();
    assert_eq!(lines.len(), 159);
    assert_eq!(lines[0], HEADER);
    assert_eq!(lines[1], "module Kimchi_bindings.FieldVectors = struct");
    assert_eq!(lines[2], "module Kimchi_bindings.FieldVectors.Fp = struct");
    assert_eq!(lines[3], "type Kimchi_bindings.FieldVectors.Fp.t");
    assert_eq!(lines[79], "type Kimchi_bindings.Protocol.Index.Fp.t");
    assert_eq!(lines[157], "end");
    assert_eq!(lines[158], "end");
    let nested = run_pass(PassKind::Kimchi, true).unwrap();
    assert_eq!(nested.len(), 161);
    assert_eq!(nested[1], "module Kimchi_bindings = struct");
    assert_eq!(nested[160], "end");
    assert_eq!(nested[2..160], lines[1..]);
}

#[test]
fn the_snarky_pass_writes_its_sink() {
    let lines = run_pass(PassKind::Snarky, false).unwrap();
    assert_eq!(lines.len(), 110);
    assert_eq!(lines[0], HEADER);
    assert_eq!(lines[1], "(** The constraints exposed by Kimchi. *)");
    assert_eq!(lines[2], "module Snarky_bindings.Constraints = struct");
    assert_eq!(lines[3], "(** The legacy R1CS constraints. *)");
    assert_eq!(lines[55], "external Snarky_bindings.Fp.State.set_as_prover = \"fp_state_set_as_prover\"");
    assert_eq!(lines[108], "end");
    assert_eq!(lines[109], "end");
    let nested = run_pass(PassKind::Snarky, true).unwrap();
    assert_eq!(nested.len(), 112);
    assert_eq!(nested[1], "module Snarky_bindings = struct");
    assert_eq!(nested[111], "end");
    assert_eq!(nested[2..111], lines[1..]);
}

#[test]
fn the_pasta_pass_writes_its_synonyms() {
    let lines = run_pass(PassKind::Pasta, false).unwrap();
    let synonyms: Vec<&String> = lines.iter().filter(|l| l.starts_with("type ") && l.contains(" = ")).collect();
    let expected = vec![
        "type Pasta_bindings.Vesta.BaseField.t = Pasta_bindings.Fq.t",
        "type Pasta_bindings.Vesta.ScalarField.t = Pasta_bindings.Fp.t",
        "type Pasta_bindings.Vesta.Affine.t = Pasta_bindings.Fq.t Kimchi_types.or_infinity",
        "type Pasta_bindings.Pallas.BaseField.t = Pasta_bindings.Fp.t",
        "type Pasta_bindings.Pallas.ScalarField.t = Pasta_bindings.Fq.t",
        "type Pasta_bindings.Pallas.Affine.t = Pasta_bindings.Fp.t Kimchi_types.or_infinity",
    ];
    assert_eq!(synonyms, expected);
}

#[test]
fn the_kimchi_pass_writes_its_synonyms() {
    let lines = run_pass(PassKind::Kimchi, false).unwrap();
    let synonyms: Vec<&String> = lines.iter().filter(|l| l.starts_with("type ") && l.contains(" = ")).collect();
    let expected = vec![
        "type Kimchi_bindings.FieldVectors.Fp.elt = Pasta_bindings.Fp.t",
        "type Kimchi_bindings.FieldVectors.Fq.elt = Pasta_bindings.Fq.t",
        "type Kimchi_bindings.Protocol.Gates.Vector.Fp.elt = Pasta_bindings.Fp.t Kimchi_types.circuit_gate",
        "type Kimchi_bindings.Protocol.Gates.Vector.Fq.elt = Pasta_bindings.Fq.t Kimchi_types.circuit_gate",
        "type Kimchi_bindings.Protocol.SRS.Fp.Poly_comm.t = Pasta_bindings.Fp.t Kimchi_types.or_infinity Kimchi_types.poly_comm",
        "type Kimchi_bindings.Protocol.VerifierIndex.Fp.t = (Pasta_bindings.Fp.t, Kimchi_bindings.Protocol.SRS.Fp.t, Pasta_bindings.Fq.t Kimchi_types.or_infinity Kimchi_types.poly_comm) Kimchi_types.VerifierIndex.verifier_index",
        "type Kimchi_bindings.Protocol.VerifierIndex.Fq.t = (Pasta_bindings.Fq.t, Kimchi_bindings.Protocol.SRS.Fq.t, Pasta_bindings.Fp.t Kimchi_types.or_infinity Kimchi_types.poly_comm) Kimchi_types.VerifierIndex.verifier_index",
        "type Kimchi_bindings.Protocol.Oracles.Fp.t = Pasta_bindings.Fp.t Kimchi_types.oracles",
        "type Kimchi_bindings.Protocol.Oracles.Fq.t = Pasta_bindings.Fq.t Kimchi_types.oracles",
    ];
    assert_eq!(synonyms, expected);
}

#[test]
fn the_snarky_pass_writes_its_remarks() {
    let lines = run_pass(PassKind::Snarky, false).unwrap();
    let remarks: Vec<&String> = lines.iter().filter(|l| l.starts_with("(** ")).collect();
    let expected = vec![
        "(** The constraints exposed by Kimchi. *)",
        "(** The legacy R1CS constraints. *)",
        "(** The inputs to the different custom gates. *)",
        "(** The custom gates exposed by Kimchi. *)",
    ];
    assert_eq!(remarks, expected);
}

#[test]
fn generating_the_types_bindings_fills_the_registry() {
    let mut pass = Pass::new(SLOTS);
    pass.enter("Kimchi_types").unwrap();
    assert_eq!(generate_types_bindings(&mut pass), Ok(()));
    assert_eq!(pass.depth(), 1);
    assert_eq!(pass.current_path(), "Kimchi_types");
    assert_eq!(pass.registry().len(), 28);
    assert_eq!(pass.lines().len(), 32);
    assert!(pass.registry().contains("Kimchi_types.VerifierIndex", "verifier_index"));
}

#[test]
fn generating_the_pasta_bindings_fills_the_registry() {
    let mut pass = Pass::new(SLOTS);
    pass.enter("Pasta_bindings").unwrap();
    assert_eq!(take_over_types(PassKind::Pasta, &mut pass), Ok(()));
    assert_eq!(pass.registry().len(), 1);
    assert!(pass.lines().is_empty());
    assert_eq!(generate_pasta_bindings(&mut pass), Ok(()));
    assert_eq!(pass.depth(), 1);
    assert_eq!(pass.current_path(), "Pasta_bindings");
    assert_eq!(pass.registry().len(), 1 + 113);
    assert_eq!(pass.lines().len(), 135);
    assert!(pass.registry().contains("Pasta_bindings.Pallas", "deep_copy"));
}

#[test]
fn generating_the_kimchi_bindings_fills_the_registry() {
    let mut pass = Pass::new(SLOTS);
    pass.enter("Kimchi_bindings").unwrap();
    assert_eq!(take_over_types(PassKind::Kimchi, &mut pass), Ok(()));
    assert_eq!(pass.registry().len(), 7);
    assert!(pass.lines().is_empty());
    assert_eq!(generate_kimchi_bindings(&mut pass), Ok(()));
    assert_eq!(pass.depth(), 1);
    assert_eq!(pass.current_path(), "Kimchi_bindings");
    assert_eq!(pass.registry().len(), 7 + 110);
    assert_eq!(pass.lines().len(), 158);
    assert!(pass.registry().contains("Kimchi_bindings.Protocol.Proof.Fq", "deep_copy"));
}

#[test]
fn generating_the_snarky_bindings_fills_the_registry() {
    let mut pass = Pass::new(SLOTS);
    pass.enter("Snarky_bindings").unwrap();
    assert_eq!(generate_snarky_bindings(&mut pass), Ok(()));
    assert_eq!(pass.depth(), 1);
    assert_eq!(pass.current_path(), "Snarky_bindings");
    assert_eq!(pass.registry().len(), 85);
    assert_eq!(pass.lines().len(), 109);
    assert!(pass.registry().contains("Snarky_bindings.Fq.State", "get_private_inputs"));
}

#[test]
fn generating_twice_in_one_pass_is_a_duplicate() {
    let mut pass = Pass::new(SLOTS);
    pass.enter("Kimchi_types").unwrap();
    generate_types_bindings(&mut pass).unwrap();
    let lines = pass.lines().len();
    let bindings = pass.registry().len();
    assert_eq!(generate_types_bindings(&mut pass), Err(GenError::DuplicateDeclaration));
    assert_eq!(pass.lines().len(), lines);
    assert_eq!(pass.registry().len(), bindings);
}

#[test]
fn the_types_need_a_root_scope() {
    let mut pass = Pass::new(SLOTS);
    assert_eq!(generate_types_bindings(&mut pass), Err(GenError::ScopeUnderflow));
    assert!(pass.lines().is_empty());
}

#[test]
fn the_types_need_three_slots() {
    let mut pass = Pass::new(2);
    pass.enter("Kimchi_types").unwrap();
    assert_eq!(generate_types_bindings(&mut pass), Err(GenError::UnknownPlaceholder));
    assert_eq!(pass.lines().last().unwrap(), "type 'T1 Kimchi_types.VerifierIndex.verification_evals");
    let mut pass = Pass::new(0);
    pass.enter("Kimchi_types").unwrap();
    assert_eq!(generate_types_bindings(&mut pass), Err(GenError::UnknownPlaceholder));
    assert!(pass.lines().is_empty());
}

#[test]
fn the_curves_need_the_types_they_take_over() {
    let mut pass = Pass::new(SLOTS);
    pass.enter("Pasta_bindings").unwrap();
    assert_eq!(generate_pasta_bindings(&mut pass), Err(GenError::UnknownTarget));
    assert_eq!(pass.current_path(), "Pasta_bindings.Vesta.Affine");
    assert_eq!(pass.registry().len(), 79);
    assert!(pass.registry().contains("Pasta_bindings.Vesta.ScalarField", "t"));
    assert!(!pass.registry().contains("Pasta_bindings.Vesta.Affine", "t"));
}

#[test]
fn the_protocol_needs_the_types_it_takes_over() {
    let mut pass = Pass::new(SLOTS);
    pass.enter("Kimchi_bindings").unwrap();
    assert_eq!(generate_kimchi_bindings(&mut pass), Err(GenError::UnknownTarget));
    assert_eq!(pass.current_path(), "Kimchi_bindings.FieldVectors.Fp");
    assert_eq!(pass.registry().len(), 1);
    assert!(pass.registry().contains("Kimchi_bindings.FieldVectors.Fp", "t"));
    assert!(!pass.registry().contains("Kimchi_bindings.FieldVectors.Fp", "elt"));
}

#[test]
fn the_first_and_the_last_pass_take_nothing_over() {
    let mut pass = Pass::new(SLOTS);
    assert_eq!(take_over_types(PassKind::Types, &mut pass), Ok(()));
    assert_eq!(take_over_types(PassKind::Snarky, &mut pass), Ok(()));
    assert_eq!(pass.registry().len(), 0);
    assert!(pass.lines().is_empty());
    assert_eq!(pass.depth(), 0);
}

#[test]
fn the_types_taken_over_are_bound_where_their_pass_declares_them() {
    assert_eq!(
        pasta_imports_script(),
        vec![Step::import("Kimchi_types", "CamlGroupAffine", "or_infinity", 1)]
    );
    assert_eq!(
        kimchi_imports_script(),
        vec![
            Step::import("Kimchi_types", "CamlGroupAffine", "or_infinity", 1),
            Step::import("Kimchi_types", "CamlPolyComm", "poly_comm", 1),
            Step::import("Kimchi_types", "CamlCircuitGate", "circuit_gate", 1),
            Step::import("Kimchi_types", "CamlOracles", "oracles", 1),
            Step::import("Kimchi_types.VerifierIndex", "CamlPlonkVerifierIndex", "verifier_index", 3),
            Step::import("Pasta_bindings.Fp", "CamlFp", "t", 0),
            Step::import("Pasta_bindings.Fq", "CamlFq", "t", 0),
        ]
    );
    let mut pass = Pass::new(SLOTS);
    pass.enter("Kimchi_types").unwrap();
    generate_types_bindings(&mut pass).unwrap();
    pass.exit().unwrap();
    pass.enter("Pasta_bindings").unwrap();
    generate_pasta_bindings(&mut pass).unwrap();
    for step in kimchi_imports_script() {
        match step {
            Step::Import { path, native, name, arity } => {
                assert_eq!(pass.registry().arity(&path, &name), Some(arity));
                let declared = pass.registry().declaration_of(&native).unwrap();
                assert_eq!((declared.path.as_str(), declared.name.as_str()), (path.as_str(), name.as_str()));
            }
            other => panic!("{:?}", other),
        }
    }
}

#[test]
fn taking_over_twice_is_a_duplicate() {
    let mut pass = Pass::new(SLOTS);
    take_over_types(PassKind::Kimchi, &mut pass).unwrap();
    assert_eq!(take_over_types(PassKind::Kimchi, &mut pass), Err(GenError::DuplicateDeclaration));
    assert_eq!(take_over_types(PassKind::Pasta, &mut pass), Err(GenError::DuplicateDeclaration));
    assert_eq!(pass.registry().len(), 7);
}

fn names_under(pass: &Pass, path: &str) -> Vec<String> {
    let registry = pass.registry();
    let mut names = Vec::new();
    for i in 0..registry.len() {
        let binding = registry.get(i).unwrap();
        if binding.path == path {
            names.push(binding.name.clone());
        }
    }
    names
}

fn one_pass_for_all() -> Pass {
    let mut pass = Pass::new(SLOTS);
    pass.enter("Kimchi_types").unwrap();
    assert_eq!(generate_types_bindings(&mut pass), Ok(()));
    assert_eq!(pass.registry().len(), 28);
    pass.exit().unwrap();
    pass.enter("Pasta_bindings").unwrap();
    assert_eq!(generate_pasta_bindings(&mut pass), Ok(()));
    assert_eq!(pass.registry().len(), 28 + 113);
    assert_eq!(pass.current_path(), "Pasta_bindings");
    pass.exit().unwrap();
    pass.enter("Kimchi_bindings").unwrap();
    assert_eq!(generate_kimchi_bindings(&mut pass), Ok(()));
    assert_eq!(pass.registry().len(), 28 + 113 + 110);
    assert_eq!(pass.current_path(), "Kimchi_bindings");
    pass
}

#[test]
fn one_pass_can_walk_the_scripts_one_after_the_other() {
    let mut pass = one_pass_for_all();
    pass.exit().unwrap();
    pass.enter("Snarky_bindings").unwrap();
    assert_eq!(generate_snarky_bindings(&mut pass), Ok(()));
    assert_eq!(pass.registry().len(), 28 + 113 + 110 + 85);
    pass.exit().unwrap();
    let lines = pass.finish().unwrap();
    assert_eq!(lines.len(), 32 + 135 + 158 + 109);
    let own: Vec<String> = [PassKind::Types, PassKind::Pasta, PassKind::Kimchi, PassKind::Snarky]
        .iter()
        .flat_map(|kind| run_pass(*kind, false).unwrap().into_iter().skip(1))
        .collect();
    assert_eq!(lines, own);
}

#[test]
fn the_protocol_declares_its_names_in_order() {
    let pass = one_pass_for_all();
    assert_eq!(
        names_under(&pass, "Kimchi_bindings.FieldVectors.Fp"),
        vec!["t", "elt", "create", "length", "emplace_back", "get", "set"]
    );
    assert_eq!(
        names_under(&pass, "Kimchi_bindings.Protocol.Proof.Fq"),
        vec!["create", "verify", "batch_verify", "dummy", "deep_copy"]
    );
    assert_eq!(names_under(&pass, "Kimchi_bindings.Protocol.Proof.Fp").len(), 12);
    assert_eq!(names_under(&pass, "Kimchi_bindings.Protocol.SRS.Fp.Poly_comm"), vec!["t"]);
    assert_eq!(names_under(&pass, "Kimchi_bindings.Protocol.SRS.Fp")[1], "create");
    assert_eq!(pass.registry().arity("Kimchi_bindings.FieldVectors.Fp", "elt"), Some(0));
    assert_eq!(pass.registry().arity("Pasta_bindings.Fp", "t"), Some(0));
    assert_eq!(pass.registry().arity("Pasta_bindings.Vesta.Affine", "t"), Some(1));
}

#[test]
fn the_protocol_cannot_be_declared_twice_in_one_pass() {
    let mut pass = one_pass_for_all();
    let bindings = pass.registry().len();
    let lines = pass.lines().len();
    assert_eq!(generate_kimchi_bindings(&mut pass), Err(GenError::DuplicateDeclaration));
    assert_eq!(pass.registry().len(), bindings);
    assert_eq!(pass.current_path(), "Kimchi_bindings.FieldVectors.Fp");
    assert_eq!(
        pass.lines()[lines..],
        [
            "module Kimchi_bindings.FieldVectors = struct".to_string(),
            "module Kimchi_bindings.FieldVectors.Fp = struct".to_string(),
        ]
    );
}

#[test]
fn passes_share_no_state() {
    let first = run_pass(PassKind::Pasta, false).unwrap();
    let second = run_pass(PassKind::Pasta, false).unwrap();
    assert_eq!(first, second);
}
