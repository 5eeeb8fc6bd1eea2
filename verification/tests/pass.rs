use declgen::decl::DeclKind;
use declgen::decl::TypeExpr;
use declgen::error::GenError;
use declgen::pass::Pass;
use declgen::placeholder::Placeholder;
use declgen::registry::BindingKind;

fn slot(i: usize) -> TypeExpr {
    TypeExpr::Slot(Placeholder { slot: i })
}

#[test]
fn a_new_pass_has_done_nothing() {
    let pass = Pass::new(3);
    assert_eq!(pass.depth(), 0);
    assert_eq!(pass.current_path(), "");
    assert!(pass.lines().is_empty());
    assert_eq!(pass.registry().len(), 0);
    assert_eq!(pass.finish(), Ok(vec![]));
}

#[test]
fn a_module_with_a_type_and_a_function() {
    let mut pass = Pass::new(3);
    assert_eq!(pass.enter("M"), Ok(()));
    assert_eq!(pass.declare_type("Foo", "t", 1), Ok(()));
    assert_eq!(pass.declare_function("foo_make", "make"), Ok(()));
    let frame = pass.exit().unwrap();
    assert_eq!(
        pass.lines(),
        &vec!["type 'T1 M.t".to_string(), "external M.make = \"foo_make\"".to_string()]
    );
    let registry = pass.registry();
    assert_eq!(registry.len(), 2);
    assert!(registry.contains("M", "t"));
    assert!(registry.contains("M", "make"));
    assert_eq!((registry.get(0).unwrap().path.as_str(), registry.get(0).unwrap().name.as_str()), ("M", "t"));
    assert_eq!((registry.get(1).unwrap().path.as_str(), registry.get(1).unwrap().name.as_str()), ("M", "make"));
    assert_eq!(frame.name(), "M");
    let decls = frame.declarations();
    assert_eq!(decls.len(), 2);
    assert_eq!(decls[0].kind, DeclKind::Type);
    assert_eq!(decls[0].path, "M");
    assert_eq!(decls[0].name, "t");
    assert_eq!(decls[0].placeholders, vec![0]);
    assert_eq!(decls[1].kind, DeclKind::Function);
    assert_eq!(decls[1].path, "M");
    assert_eq!(decls[1].name, "make");
    assert!(decls[1].placeholders.is_empty());
    assert_eq!(pass.finish().unwrap().len(), 2);
}

#[test]
fn an_alias_of_a_type_that_was_declared_before() {
    let mut pass = Pass::new(3);
    pass.enter("N").unwrap();
    pass.declare_type("Base", "base", 1).unwrap();
    let target = TypeExpr::apply1("Base", slot(0));
    assert_eq!(pass.declare_alias("t", &target), Ok(()));
    assert_eq!(pass.lines()[1], "type 'T1 N.t = 'T1 N.base");
    assert_eq!(pass.registry().arity("N", "t"), Some(1));
    assert_eq!(pass.registry().get(1).unwrap().kind, BindingKind::Alias);
    assert_eq!(pass.registry().get(1).unwrap().native, "Base");
}

#[test]
fn an_alias_before_its_target_is_refused() {
    let mut pass = Pass::new(3);
    pass.enter("N").unwrap();
    let target = TypeExpr::apply1("Base", slot(0));
    assert_eq!(pass.declare_alias("t", &target), Err(GenError::UnknownTarget));
    assert!(pass.lines().is_empty());
    assert_eq!(pass.registry().len(), 0);
    assert_eq!(pass.declare_type("Base", "base", 1), Ok(()));
    assert_eq!(pass.lines().len(), 1);
}

#[test]
fn an_alias_of_a_type_applied_to_a_type() {
    let mut pass = Pass::new(3);
    pass.enter("N").unwrap();
    pass.declare_type("Wrapper", "wrapper", 1).unwrap();
    let target = TypeExpr::apply1("Wrapper", TypeExpr::named("Base"));
    assert_eq!(pass.declare_alias("t", &target), Err(GenError::UnknownTarget));
    pass.declare_type("Base", "base", 0).unwrap();
    assert_eq!(pass.declare_alias("t", &target), Ok(()));
    assert_eq!(pass.lines()[2], "type N.t = N.base N.wrapper");
}

#[test]
fn slot_five_of_three_writes_nothing() {
    let mut pass = Pass::new(3);
    pass.enter("M").unwrap();
    pass.declare_type("Foo", "foo", 1).unwrap();
    assert_eq!(pass.placeholder(5), Err(GenError::UnknownPlaceholder));
    let target = TypeExpr::apply1("Foo", slot(5));
    assert_eq!(pass.declare_alias("t", &target), Err(GenError::UnknownPlaceholder));
    assert_eq!(pass.lines().len(), 1);
    assert_eq!(pass.registry().len(), 1);
    assert!(!pass.registry().contains("M", "t"));
}

#[test]
fn a_type_of_more_parameters_than_slots_writes_nothing() {
    let mut pass = Pass::new(3);
    pass.enter("M").unwrap();
    assert_eq!(pass.declare_type("Foo", "t", 4), Err(GenError::UnknownPlaceholder));
    assert_eq!(pass.declare_type("Foo", "t", 6), Err(GenError::UnknownPlaceholder));
    assert!(pass.lines().is_empty());
    assert_eq!(pass.registry().len(), 0);
    assert_eq!(pass.declare_type("Foo", "t", 3), Ok(()));
    assert_eq!(pass.lines()[0], "type ('T1, 'T2, 'T3) M.t");
}

#[test]
fn the_slots_of_a_pass_can_be_referenced() {
    let pass = Pass::new(3);
    assert_eq!(pass.placeholder(0), Ok(Placeholder { slot: 0 }));
    assert_eq!(pass.placeholder(2), Ok(Placeholder { slot: 2 }));
    assert_eq!(pass.placeholder(3), Err(GenError::UnknownPlaceholder));
}

#[test]
fn a_type_line_lists_its_parameters() {
    let mut pass = Pass::new(3);
    pass.enter("M").unwrap();
    pass.declare_type("A", "a", 0).unwrap();
    pass.declare_type("B", "b", 1).unwrap();
    pass.declare_type("C", "c", 2).unwrap();
    pass.declare_type("D", "d", 3).unwrap();
    assert_eq!(
        pass.lines(),
        &vec![
            "type M.a".to_string(),
            "type 'T1 M.b".to_string(),
            "type ('T1, 'T2) M.c".to_string(),
            "type ('T1, 'T2, 'T3) M.d".to_string(),
        ]
    );
}

#[test]
fn a_duplicate_writes_nothing() {
    let mut pass = Pass::new(3);
    pass.enter("M").unwrap();
    pass.declare_type("Foo", "t", 1).unwrap();
    assert_eq!(pass.declare_type("Foo", "t", 1), Err(GenError::DuplicateDeclaration));
    assert_eq!(pass.declare_function("foo_t", "t"), Err(GenError::DuplicateDeclaration));
    assert_eq!(pass.declare_alias("t", &TypeExpr::named("Foo")), Err(GenError::DuplicateDeclaration));
    assert_eq!(pass.lines(), &vec!["type 'T1 M.t".to_string()]);
    assert_eq!(pass.registry().len(), 1);
    assert_eq!(pass.registry().arity("M", "t"), Some(1));
    assert_eq!(pass.exit().unwrap().declarations().len(), 1);
}

#[test]
fn the_same_name_can_be_declared_in_two_modules() {
    let mut pass = Pass::new(3);
    pass.enter("Fp").unwrap();
    pass.declare_type("CamlFp", "t", 0).unwrap();
    pass.exit().unwrap();
    pass.enter("Fq").unwrap();
    assert_eq!(pass.declare_type("CamlFq", "t", 0), Ok(()));
    assert_eq!(pass.lines(), &vec!["type Fp.t".to_string(), "type Fq.t".to_string()]);
}

#[test]
fn a_module_that_is_entered_again_keeps_its_names() {
    let mut pass = Pass::new(3);
    pass.enter("M").unwrap();
    pass.declare_type("Foo", "t", 0).unwrap();
    pass.exit().unwrap();
    pass.enter("M").unwrap();
    assert_eq!(pass.declare_type("Bar", "t", 0), Err(GenError::DuplicateDeclaration));
    assert_eq!(pass.declare_type("Bar", "u", 0), Ok(()));
}

#[test]
fn a_pass_declares_only_inside_an_open_scope() {
    let mut pass = Pass::new(3);
    assert_eq!(pass.declare_type("Foo", "t", 0), Err(GenError::ScopeUnderflow));
    assert_eq!(pass.declare_function("foo_make", "make"), Err(GenError::ScopeUnderflow));
    assert_eq!(pass.declare_alias("t", &TypeExpr::named("Foo")), Err(GenError::ScopeUnderflow));
    assert!(pass.lines().is_empty());
    assert_eq!(pass.registry().len(), 0);
}

#[test]
fn a_malformed_name_is_refused() {
    let mut pass = Pass::new(3);
    assert_eq!(pass.enter(""), Err(GenError::MalformedName));
    assert_eq!(pass.open_module("A.B"), Err(GenError::MalformedName));
    pass.enter("M").unwrap();
    assert_eq!(pass.declare_type("Foo", "", 0), Err(GenError::MalformedName));
    assert_eq!(pass.declare_type("Foo", "a.b", 0), Err(GenError::MalformedName));
    assert_eq!(pass.declare_function("foo", "x.y", ), Err(GenError::MalformedName));
    pass.declare_type("Foo", "foo", 0).unwrap();
    assert_eq!(pass.declare_alias(".", &TypeExpr::named("Foo")), Err(GenError::MalformedName));
    assert_eq!(pass.lines().len(), 1);
    assert_eq!(pass.registry().len(), 1);
}

#[test]
fn a_slot_alone_is_no_target() {
    let mut pass = Pass::new(3);
    pass.enter("M").unwrap();
    assert_eq!(pass.declare_alias("t", &slot(0)), Err(GenError::UnknownTarget));
    assert_eq!(pass.declare_alias("t", &slot(3)), Err(GenError::UnknownPlaceholder));
    assert!(pass.lines().is_empty());
}

#[test]
fn a_type_named_like_a_slot_is_a_type() {
    let mut pass = Pass::new(3);
    pass.enter("M").unwrap();
    assert_eq!(pass.declare_type("Native", "T1", 1), Ok(()));
    assert_eq!(pass.declare_alias("t", &TypeExpr::apply1("Native", slot(0))), Ok(()));
    assert_eq!(
        pass.lines(),
        &vec!["type 'T1 M.T1".to_string(), "type 'T1 M.t = 'T1 M.T1".to_string()]
    );
    assert_eq!(pass.declare_alias("u", &TypeExpr::named("T1")), Err(GenError::UnknownTarget));
}

#[test]
fn an_alias_covers_the_slots_it_refers_to() {
    let mut pass = Pass::new(3);
    pass.enter("M").unwrap();
    pass.declare_type("Pair", "pair", 2).unwrap();
    pass.declare_type("Unit", "unit", 0).unwrap();
    pass.declare_alias("a", &TypeExpr::apply2("Pair", slot(0), slot(1))).unwrap();
    pass.declare_alias("b", &TypeExpr::apply2("Pair", TypeExpr::named("Unit"), slot(2))).unwrap();
    pass.declare_alias("c", &TypeExpr::apply2("Pair", slot(1), TypeExpr::apply2("Pair", slot(0), slot(0)))).unwrap();
    assert_eq!(pass.lines()[2], "type ('T1, 'T2) M.a = ('T1, 'T2) M.pair");
    assert_eq!(pass.lines()[3], "type ('T1, 'T2, 'T3) M.b = (M.unit, 'T3) M.pair");
    assert_eq!(pass.lines()[4], "type ('T1, 'T2) M.c = ('T2, ('T1, 'T1) M.pair) M.pair");
    assert_eq!(pass.registry().arity("M", "a"), Some(2));
    assert_eq!(pass.registry().arity("M", "b"), Some(2));
    let frame = pass.exit().unwrap();
    assert_eq!(frame.declarations()[2].kind, DeclKind::TypeAlias);
    assert_eq!(frame.declarations()[2].placeholders, vec![0, 1]);
    assert_eq!(frame.declarations()[3].placeholders, vec![0, 1, 2]);
}

#[test]
fn an_alias_of_arity_two_has_arity_two() {
    let mut pass = Pass::new(3);
    pass.enter("M").unwrap();
    pass.declare_type("Pair", "pair", 2).unwrap();
    pass.enter("N").unwrap();
    pass.declare_alias("t", &TypeExpr::named("Pair")).unwrap();
    assert_eq!(pass.registry().arity("M.N", "t"), Some(2));
    assert_eq!(pass.lines()[1], "type M.N.t = M.pair");
}

#[test]
fn nested_modules_are_written_with_their_paths() {
    let mut pass = Pass::new(3);
    assert_eq!(pass.open_module("A"), Ok(()));
    assert_eq!(pass.open_module("B"), Ok(()));
    pass.declare_type("Foo", "t", 0).unwrap();
    let inner = pass.close_module().unwrap();
    pass.declare_function("foo_make", "make").unwrap();
    let outer = pass.close_module().unwrap();
    assert_eq!(
        pass.lines(),
        &vec![
            "module A = struct".to_string(),
            "module A.B = struct".to_string(),
            "type A.B.t".to_string(),
            "end".to_string(),
            "external A.make = \"foo_make\"".to_string(),
            "end".to_string(),
        ]
    );
    assert_eq!(inner.name(), "B");
    assert_eq!(inner.path(), "A.B");
    assert_eq!(inner.declarations().len(), 1);
    assert_eq!(outer.name(), "A");
    let kinds: Vec<DeclKind> = outer.declarations().iter().map(|d| d.kind).collect();
    assert_eq!(kinds, vec![DeclKind::ModuleOpen, DeclKind::ModuleClose, DeclKind::Function]);
    assert_eq!(outer.declarations()[0].name, "B");
    assert_eq!(outer.declarations()[0].path, "A");
    assert_eq!(outer.declarations()[1].name, "B");
    assert_eq!(outer.declarations()[1].path, "A");
    assert_eq!(pass.depth(), 0);
}

#[test]
fn closing_with_no_module_open_underflows() {
    let mut pass = Pass::new(3);
    assert_eq!(pass.close_module().unwrap_err(), GenError::ScopeUnderflow);
    assert_eq!(pass.exit().unwrap_err(), GenError::ScopeUnderflow);
    assert!(pass.lines().is_empty());
}

#[test]
fn a_pass_with_an_open_scope_cannot_finish() {
    let mut pass = Pass::new(3);
    pass.enter("A").unwrap();
    pass.open_module("B").unwrap();
    assert_eq!(pass.finish(), Err(GenError::UnbalancedScope("A.B".to_string())));
}

#[test]
fn a_balanced_pass_hands_out_its_lines() {
    let mut pass = Pass::new(3);
    pass.write_header();
    pass.open_module("A").unwrap();
    pass.comment("A remark.");
    pass.close_module().unwrap();
    assert_eq!(
        pass.finish(),
        Ok(vec![
            "(* This file is generated automatically with ocaml_gen. *)".to_string(),
            "module A = struct".to_string(),
            "(** A remark. *)".to_string(),
            "end".to_string(),
        ])
    );
}

#[test]
fn an_imported_type_can_be_a_target() {
    let mut pass = Pass::new(3);
    assert_eq!(pass.import_type("Kimchi_types", "CamlGroupAffine", "or_infinity", 1), Ok(()));
    assert!(pass.lines().is_empty());
    assert!(pass.registry().contains("Kimchi_types", "or_infinity"));
    pass.enter("Pasta_bindings").unwrap();
    pass.enter("Fq").unwrap();
    pass.declare_type("CamlFq", "t", 0).unwrap();
    pass.exit().unwrap();
    pass.enter("Affine").unwrap();
    let target = TypeExpr::apply1("CamlGroupAffine", TypeExpr::named("CamlFq"));
    assert_eq!(pass.declare_alias("t", &target), Ok(()));
    assert_eq!(
        pass.lines()[1],
        "type Pasta_bindings.Affine.t = Pasta_bindings.Fq.t Kimchi_types.or_infinity"
    );
}

#[test]
fn an_import_of_a_bound_name_is_a_duplicate() {
    let mut pass = Pass::new(3);
    pass.import_type("Kimchi_types", "CamlGroupAffine", "or_infinity", 1).unwrap();
    assert_eq!(
        pass.import_type("Kimchi_types", "Other", "or_infinity", 0),
        Err(GenError::DuplicateDeclaration)
    );
    pass.enter("Kimchi_types").unwrap();
    assert_eq!(pass.declare_type("Other", "or_infinity", 0), Err(GenError::DuplicateDeclaration));
    assert_eq!(pass.registry().len(), 1);
}

#[test]
fn lines_keep_the_order_of_the_requests() {
    let mut pass = Pass::new(3);
    pass.enter("M").unwrap();
    let names = ["zeta", "alpha", "mu", "beta"];
    for name in names {
        pass.declare_function("native", name).unwrap();
    }
    pass.exit().unwrap();
    let lines = pass.finish().unwrap();
    assert_eq!(
        lines,
        vec![
            "external M.zeta = \"native\"",
            "external M.alpha = \"native\"",
            "external M.mu = \"native\"",
            "external M.beta = \"native\"",
        ]
    );
}

#[test]
fn the_scopes_of_a_pass_can_be_read() {
    let mut pass = Pass::new(3);
    pass.enter("A").unwrap();
    pass.open_module("B").unwrap();
    assert_eq!(pass.scopes().depth(), 2);
    assert_eq!(pass.scopes().current_path(), "A.B");
    assert_eq!(pass.scopes().innermost().unwrap().name(), "B");
    assert_eq!(pass.current_path(), "A.B");
    assert_eq!(pass.depth(), 2);
}

#[test]
fn every_declaration_writes_one_line() {
    let mut pass = Pass::new(3);
    pass.enter("M").unwrap();
    for (i, name) in ["a", "b", "c", "d", "e"].iter().enumerate() {
        pass.declare_type("Native", name, i % 4).unwrap();
        assert_eq!(pass.lines().len(), i + 1);
        assert_eq!(pass.registry().len(), i + 1);
        assert_eq!(pass.scopes().innermost().unwrap().declarations().len(), i + 1);
    }
}
