use declgen::error::GenError;
use declgen::text::decimal_text;
use declgen::text::is_well_formed_name;
use declgen::text::qualified;

#[test]
fn a_name_with_letters_digits_and_underscores_is_well_formed() {
    assert!(is_well_formed_name("t"));
    assert!(is_well_formed_name("Kimchi_types"));
    assert!(is_well_formed_name("of_decimal_string"));
    assert!(is_well_formed_name("example_with_range_check0"));
}

#[test]
fn an_empty_name_is_malformed() {
    assert!(!is_well_formed_name(""));
}

#[test]
fn a_name_with_a_separator_is_malformed() {
    assert!(!is_well_formed_name("A.B"));
    assert!(!is_well_formed_name("."));
    assert!(!is_well_formed_name("t."));
    assert!(!is_well_formed_name(".t"));
}

#[test]
fn a_name_outside_ascii_is_well_formed() {
    assert!(is_well_formed_name("é"));
    assert!(!is_well_formed_name("é.è"));
}

#[test]
fn a_name_at_the_root_stays_bare() {
    assert_eq!(qualified("", "t"), "t");
}

#[test]
fn a_name_in_a_module_is_joined_by_a_separator() {
    assert_eq!(qualified("M", "t"), "M.t");
    assert_eq!(qualified("Pasta_bindings.Fp", "of_int"), "Pasta_bindings.Fp.of_int");
}

#[test]
fn decimal_numerals_have_no_leading_zero() {
    assert_eq!(decimal_text(0), "0");
    assert_eq!(decimal_text(7), "7");
    assert_eq!(decimal_text(9), "9");
    assert_eq!(decimal_text(10), "10");
    assert_eq!(decimal_text(42), "42");
    assert_eq!(decimal_text(100), "100");
    assert_eq!(decimal_text(12345), "12345");
    assert_eq!(decimal_text(9876543210), "9876543210");
}

#[test]
fn the_largest_number_is_written_in_full() {
    assert_eq!(decimal_text(usize::MAX), format!("{}", usize::MAX));
}

#[test]
fn every_error_has_a_message() {
    assert_eq!(GenError::DuplicateDeclaration.message(), "duplicate declaration");
    assert_eq!(GenError::UnknownTarget.message(), "unknown target");
    assert_eq!(GenError::UnknownPlaceholder.message(), "unknown placeholder");
    assert_eq!(GenError::ScopeUnderflow.message(), "scope underflow");
    assert_eq!(GenError::SinkUnavailable.message(), "sink unavailable");
    assert_eq!(GenError::MalformedName.message(), "malformed name");
}

#[test]
fn an_unbalanced_scope_names_the_open_scope_in_its_message() {
    let e = GenError::UnbalancedScope("A.B".to_string());
    assert_eq!(e.message(), "unbalanced scope: A.B");
}
