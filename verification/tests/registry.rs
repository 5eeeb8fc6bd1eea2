use declgen::error::GenError;
use declgen::registry::BindingKind;
use declgen::registry::NameRegistry;

#[test]
fn a_new_registry_is_empty() {
    let registry = NameRegistry::new();
    assert_eq!(registry.len(), 0);
    assert!(!registry.contains("M", "t"));
    assert_eq!(registry.arity("M", "t"), None);
    assert!(registry.get(0).is_none());
}

#[test]
fn a_declared_type_is_bound_with_its_arity() {
    let mut registry = NameRegistry::new();
    assert_eq!(registry.declare_type("M", "Foo", "t", 1), Ok(()));
    assert_eq!(registry.len(), 1);
    assert!(registry.contains("M", "t"));
    assert_eq!(registry.arity("M", "t"), Some(1));
    assert!(registry.declares("Foo"));
    let binding = registry.get(0).unwrap();
    assert_eq!(binding.path, "M");
    assert_eq!(binding.name, "t");
    assert_eq!(binding.native, "Foo");
    assert_eq!(binding.arity, 1);
    assert_eq!(binding.kind, BindingKind::Type);
}

#[test]
fn declaring_twice_is_a_duplicate_and_changes_nothing() {
    let mut registry = NameRegistry::new();
    assert_eq!(registry.declare_type("M", "Foo", "t", 1), Ok(()));
    assert_eq!(registry.declare_type("M", "Foo", "t", 1), Err(GenError::DuplicateDeclaration));
    assert_eq!(registry.len(), 1);
    assert_eq!(registry.arity("M", "t"), Some(1));
    assert_eq!(registry.get(0).unwrap().native, "Foo");
}

#[test]
fn a_second_declaration_cannot_update_the_first() {
    let mut registry = NameRegistry::new();
    registry.declare_type("M", "Foo", "t", 1).unwrap();
    assert_eq!(registry.declare_type("M", "Bar", "t", 3), Err(GenError::DuplicateDeclaration));
    assert_eq!(registry.len(), 1);
    assert_eq!(registry.arity("M", "t"), Some(1));
    assert_eq!(registry.get(0).unwrap().native, "Foo");
    assert!(!registry.declares("Bar"));
}

#[test]
fn functions_and_types_share_one_namespace() {
    let mut registry = NameRegistry::new();
    registry.declare_type("M", "Foo", "t", 0).unwrap();
    assert_eq!(registry.declare_function("M", "foo_t", "t"), Err(GenError::DuplicateDeclaration));
    registry.declare_function("M", "foo_make", "make").unwrap();
    assert_eq!(registry.declare_type("M", "Make", "make", 0), Err(GenError::DuplicateDeclaration));
    assert_eq!(registry.declare_alias("M", "make", "Foo"), Err(GenError::DuplicateDeclaration));
    assert_eq!(registry.len(), 2);
}

#[test]
fn the_same_name_in_another_module_is_another_name() {
    let mut registry = NameRegistry::new();
    registry.declare_type("Fp", "CamlFp", "t", 0).unwrap();
    assert_eq!(registry.declare_type("Fq", "CamlFq", "t", 0), Ok(()));
    assert_eq!(registry.declare_type("", "Root", "t", 0), Ok(()));
    assert_eq!(registry.len(), 3);
    assert!(registry.contains("Fp", "t"));
    assert!(registry.contains("Fq", "t"));
    assert!(registry.contains("", "t"));
    assert!(!registry.contains("Fr", "t"));
}

#[test]
fn a_function_is_bound_without_parameters() {
    let mut registry = NameRegistry::new();
    registry.declare_function("M", "foo_make", "make").unwrap();
    assert_eq!(registry.arity("M", "make"), Some(0));
    assert_eq!(registry.get(0).unwrap().kind, BindingKind::Function);
    assert!(!registry.declares("foo_make"));
}

#[test]
fn an_alias_has_the_arity_of_its_target() {
    let mut registry = NameRegistry::new();
    registry.declare_type("M", "Pair", "pair", 2).unwrap();
    assert_eq!(registry.declare_alias("N", "t", "Pair"), Ok(()));
    assert_eq!(registry.arity("N", "t"), Some(2));
    let binding = registry.get(1).unwrap();
    assert_eq!(binding.kind, BindingKind::Alias);
    assert_eq!(binding.native, "Pair");
    assert_eq!(binding.arity, 2);
}

#[test]
fn an_alias_needs_a_declared_target() {
    let mut registry = NameRegistry::new();
    assert_eq!(registry.declare_alias("N", "t", "Base"), Err(GenError::UnknownTarget));
    assert_eq!(registry.len(), 0);
    registry.declare_type("M", "Base", "base", 0).unwrap();
    assert_eq!(registry.declare_alias("N", "t", "Base"), Ok(()));
}

#[test]
fn a_function_is_no_target_for_an_alias() {
    let mut registry = NameRegistry::new();
    registry.declare_function("M", "foo_make", "make").unwrap();
    assert_eq!(registry.declare_alias("M", "t", "foo_make"), Err(GenError::UnknownTarget));
    assert_eq!(registry.len(), 1);
}

#[test]
fn an_alias_is_no_target_for_an_alias_of_another_type() {
    let mut registry = NameRegistry::new();
    registry.declare_type("M", "Base", "base", 1).unwrap();
    registry.declare_alias("M", "t", "Base").unwrap();
    assert_eq!(registry.declare_alias("M", "u", "t"), Err(GenError::UnknownTarget));
    assert_eq!(registry.declare_alias("M", "u", "Base"), Ok(()));
    assert_eq!(registry.arity("M", "u"), Some(1));
}

#[test]
fn a_duplicate_is_reported_before_an_unknown_target() {
    let mut registry = NameRegistry::new();
    registry.declare_type("M", "Foo", "t", 0).unwrap();
    assert_eq!(registry.declare_alias("M", "t", "Nowhere"), Err(GenError::DuplicateDeclaration));
}

#[test]
fn the_first_declaration_of_a_native_type_is_its_declaration() {
    let mut registry = NameRegistry::new();
    registry.declare_type("M", "Foo", "t", 1).unwrap();
    registry.declare_type("N", "Foo", "u", 2).unwrap();
    let binding = registry.declaration_of("Foo").unwrap();
    assert_eq!(binding.path, "M");
    assert_eq!(binding.name, "t");
    registry.declare_alias("N", "v", "Foo").unwrap();
    assert_eq!(registry.arity("N", "v"), Some(1));
    assert!(registry.declaration_of("Bar").is_none());
}

#[test]
fn bindings_keep_the_order_of_declaration() {
    let mut registry = NameRegistry::new();
    registry.declare_type("M", "Foo", "t", 1).unwrap();
    registry.declare_function("M", "foo_make", "make").unwrap();
    registry.declare_alias("M", "u", "Foo").unwrap();
    assert_eq!(registry.get(0).unwrap().name, "t");
    assert_eq!(registry.get(1).unwrap().name, "make");
    assert_eq!(registry.get(2).unwrap().name, "u");
    assert!(registry.get(3).is_none());
}
