use declgen::decl::join_arguments;
use declgen::decl::TypeExpr;
use declgen::error::GenError;
use declgen::placeholder::Placeholder;
use declgen::placeholder::PlaceholderTable;
use declgen::registry::NameRegistry;

fn slot(i: usize) -> TypeExpr {
    TypeExpr::slot(Placeholder { slot: i })
}

fn registry() -> NameRegistry {
    let mut registry = NameRegistry::new();
    registry.declare_type("M", "Unit", "unit", 0).unwrap();
    registry.declare_type("M", "List", "list", 1).unwrap();
    registry.declare_type("M.N", "Pair", "pair", 2).unwrap();
    registry.declare_type("", "Top", "top", 0).unwrap();
    registry
}

#[test]
fn no_argument_is_written_as_nothing() {
    assert_eq!(join_arguments(&vec![]), "");
}

#[test]
fn one_argument_stands_before_a_blank() {
    assert_eq!(join_arguments(&vec!["'T1".to_string()]), "'T1 ");
}

#[test]
fn more_arguments_stand_in_parentheses() {
    assert_eq!(join_arguments(&vec!["'T1".to_string(), "'T2".to_string()]), "('T1, 'T2) ");
    assert_eq!(
        join_arguments(&vec!["a".to_string(), "b".to_string(), "c".to_string(), "d".to_string()]),
        "(a, b, c, d) "
    );
}

#[test]
fn constructors_build_the_expression_they_name() {
    assert_eq!(slot(1), TypeExpr::Slot(Placeholder { slot: 1 }));
    assert_eq!(TypeExpr::named("Unit"), TypeExpr::Apply { native: "Unit".to_string(), args: vec![] });
    assert_eq!(
        TypeExpr::apply("List", vec![slot(0)]),
        TypeExpr::Apply { native: "List".to_string(), args: vec![slot(0)] }
    );
    assert_eq!(TypeExpr::apply1("List", slot(0)), TypeExpr::apply("List", vec![slot(0)]));
    assert_eq!(TypeExpr::apply2("Pair", slot(0), slot(1)), TypeExpr::apply("Pair", vec![slot(0), slot(1)]));
    assert_eq!(
        TypeExpr::apply3("Triple", slot(0), slot(1), slot(2)),
        TypeExpr::apply("Triple", vec![slot(0), slot(1), slot(2)])
    );
}

#[test]
fn the_bound_of_an_expression_covers_its_slots() {
    assert_eq!(slot(0).bound_within(3), Ok(1));
    assert_eq!(slot(2).bound_within(3), Ok(3));
    assert_eq!(TypeExpr::named("Unit").bound_within(3), Ok(0));
    assert_eq!(TypeExpr::named("Unit").bound_within(0), Ok(0));
    assert_eq!(TypeExpr::apply2("Pair", slot(1), slot(0)).bound_within(3), Ok(2));
    assert_eq!(
        TypeExpr::apply2("Pair", TypeExpr::apply1("List", slot(2)), slot(0)).bound_within(3),
        Ok(3)
    );
}

#[test]
fn a_slot_beyond_the_count_has_no_bound() {
    assert_eq!(slot(3).bound_within(3), Err(GenError::UnknownPlaceholder));
    assert_eq!(slot(0).bound_within(0), Err(GenError::UnknownPlaceholder));
    assert_eq!(
        TypeExpr::apply2("Pair", slot(0), TypeExpr::apply1("List", slot(5))).bound_within(3),
        Err(GenError::UnknownPlaceholder)
    );
    assert_eq!(slot(usize::MAX).bound_within(usize::MAX), Err(GenError::UnknownPlaceholder));
}

#[test]
fn natives_are_known_when_all_are_declared() {
    let registry = registry();
    assert!(slot(7).natives_known(&registry));
    assert!(TypeExpr::named("Unit").natives_known(&registry));
    assert!(TypeExpr::apply1("List", TypeExpr::named("Unit")).natives_known(&registry));
    assert!(!TypeExpr::named("Nowhere").natives_known(&registry));
    assert!(!TypeExpr::apply1("List", TypeExpr::named("Nowhere")).natives_known(&registry));
    assert!(!TypeExpr::apply1("Nowhere", TypeExpr::named("Unit")).natives_known(&registry));
}

#[test]
fn an_expression_is_written_with_qualified_names() {
    let registry = registry();
    let table = PlaceholderTable::new(3);
    assert_eq!(slot(0).render(&registry, &table), Ok("'T1".to_string()));
    assert_eq!(TypeExpr::named("Unit").render(&registry, &table), Ok("M.unit".to_string()));
    assert_eq!(TypeExpr::named("Top").render(&registry, &table), Ok("top".to_string()));
    assert_eq!(TypeExpr::apply1("List", slot(1)).render(&registry, &table), Ok("'T2 M.list".to_string()));
    assert_eq!(
        TypeExpr::apply2("Pair", TypeExpr::named("Unit"), slot(2)).render(&registry, &table),
        Ok("(M.unit, 'T3) M.N.pair".to_string())
    );
    assert_eq!(
        TypeExpr::apply1("List", TypeExpr::apply1("List", TypeExpr::named("Unit"))).render(&registry, &table),
        Ok("M.unit M.list M.list".to_string())
    );
    assert_eq!(
        TypeExpr::apply2(
            "Pair",
            TypeExpr::apply2("Pair", slot(0), slot(1)),
            TypeExpr::apply1("List", TypeExpr::named("Top"))
        )
        .render(&registry, &table),
        Ok("(('T1, 'T2) M.N.pair, top M.list) M.N.pair".to_string())
    );
}

#[test]
fn an_unknown_slot_is_reported_before_an_unknown_type() {
    let registry = registry();
    let table = PlaceholderTable::new(3);
    assert_eq!(slot(3).render(&registry, &table), Err(GenError::UnknownPlaceholder));
    assert_eq!(TypeExpr::named("Nowhere").render(&registry, &table), Err(GenError::UnknownTarget));
    assert_eq!(
        TypeExpr::apply2("Nowhere", TypeExpr::named("Unit"), slot(9)).render(&registry, &table),
        Err(GenError::UnknownPlaceholder)
    );
    assert_eq!(
        TypeExpr::apply1("List", TypeExpr::named("Nowhere")).render(&registry, &table),
        Err(GenError::UnknownTarget)
    );
}
