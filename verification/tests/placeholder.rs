use declgen::error::GenError;
use declgen::placeholder::Placeholder;
use declgen::placeholder::PlaceholderTable;

#[test]
fn three_slots_are_named_t1_t2_t3() {
    let table = PlaceholderTable::new(3);
    assert_eq!(table.len(), 3);
    assert_eq!(table.display_name(0), Ok("T1".to_string()));
    assert_eq!(table.display_name(1), Ok("T2".to_string()));
    assert_eq!(table.display_name(2), Ok("T3".to_string()));
}

#[test]
fn a_registered_slot_can_be_referenced() {
    let table = PlaceholderTable::new(3);
    assert_eq!(table.placeholder(0), Ok(Placeholder { slot: 0 }));
    assert_eq!(table.placeholder(2), Ok(Placeholder { slot: 2 }));
    assert_eq!(table.reference(0), Ok("'T1".to_string()));
    assert_eq!(table.reference(2), Ok("'T3".to_string()));
}

#[test]
fn slot_five_of_three_is_unknown() {
    let table = PlaceholderTable::new(3);
    assert_eq!(table.placeholder(5), Err(GenError::UnknownPlaceholder));
    assert_eq!(table.display_name(5), Err(GenError::UnknownPlaceholder));
    assert_eq!(table.reference(5), Err(GenError::UnknownPlaceholder));
}

#[test]
fn the_first_slot_beyond_the_table_is_unknown() {
    let table = PlaceholderTable::new(3);
    assert_eq!(table.placeholder(3), Err(GenError::UnknownPlaceholder));
    assert_eq!(table.placeholder(usize::MAX), Err(GenError::UnknownPlaceholder));
}

#[test]
fn an_empty_table_has_no_slot() {
    let table = PlaceholderTable::new(0);
    assert_eq!(table.len(), 0);
    assert_eq!(table.placeholder(0), Err(GenError::UnknownPlaceholder));
}

#[test]
fn a_table_extends_beyond_nine_slots() {
    let table = PlaceholderTable::new(12);
    assert_eq!(table.len(), 12);
    assert_eq!(table.display_name(8), Ok("T9".to_string()));
    assert_eq!(table.display_name(9), Ok("T10".to_string()));
    assert_eq!(table.display_name(11), Ok("T12".to_string()));
    assert_eq!(table.reference(10), Ok("'T11".to_string()));
    assert_eq!(table.placeholder(12), Err(GenError::UnknownPlaceholder));
}
