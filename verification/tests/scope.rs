use declgen::decl::DeclKind;
use declgen::decl::ForeignDeclaration;
use declgen::error::GenError;
use declgen::scope::ScopeStack;

#[test]
fn a_new_stack_has_no_open_scope() {
    let stack = ScopeStack::new();
    assert_eq!(stack.depth(), 0);
    assert!(stack.is_empty());
    assert_eq!(stack.current_path(), "");
    assert!(stack.innermost().is_none());
    assert_eq!(stack.finish(), Ok(()));
}

#[test]
fn the_path_follows_enter_and_exit() {
    let mut stack = ScopeStack::new();
    assert_eq!(stack.enter("A"), Ok(()));
    assert_eq!(stack.current_path(), "A");
    assert_eq!(stack.enter("B"), Ok(()));
    assert_eq!(stack.current_path(), "A.B");
    assert_eq!(stack.depth(), 2);
    let frame = stack.exit().unwrap();
    assert_eq!(frame.name(), "B");
    assert_eq!(frame.path(), "A.B");
    assert_eq!(stack.current_path(), "A");
    assert_eq!(stack.depth(), 1);
    let frame = stack.exit().unwrap();
    assert_eq!(frame.name(), "A");
    assert_eq!(frame.path(), "A");
    assert_eq!(stack.current_path(), "");
    assert!(stack.is_empty());
}

#[test]
fn a_deep_path_joins_every_open_scope() {
    let mut stack = ScopeStack::new();
    for name in ["Kimchi_bindings", "Protocol", "Gates", "Vector", "Fp"] {
        assert_eq!(stack.enter(name), Ok(()));
    }
    assert_eq!(stack.current_path(), "Kimchi_bindings.Protocol.Gates.Vector.Fp");
    assert_eq!(stack.depth(), 5);
}

#[test]
fn an_exit_with_no_open_scope_underflows() {
    let mut stack = ScopeStack::new();
    assert_eq!(stack.exit().unwrap_err(), GenError::ScopeUnderflow);
    assert!(stack.is_empty());
}

#[test]
fn each_spurious_exit_raises_one_underflow() {
    let mut stack = ScopeStack::new();
    let mut underflows = 0;
    assert_eq!(stack.enter("A"), Ok(()));
    assert_eq!(stack.enter("B"), Ok(()));
    for _ in 0..5 {
        match stack.exit() {
            Ok(_) => {}
            Err(e) => {
                assert_eq!(e, GenError::ScopeUnderflow);
                underflows += 1;
            }
        }
    }
    assert_eq!(underflows, 3);
    assert!(stack.is_empty());
    assert_eq!(stack.finish(), Ok(()));
}

#[test]
fn a_stack_can_be_used_again_after_an_underflow() {
    let mut stack = ScopeStack::new();
    assert!(stack.exit().is_err());
    assert_eq!(stack.enter("A"), Ok(()));
    assert_eq!(stack.current_path(), "A");
}

#[test]
fn exit_closes_the_scope_entered_last() {
    let mut stack = ScopeStack::new();
    stack.enter("A").unwrap();
    stack.enter("B").unwrap();
    stack.exit().unwrap();
    stack.enter("C").unwrap();
    assert_eq!(stack.current_path(), "A.C");
    assert_eq!(stack.exit().unwrap().name(), "C");
    assert_eq!(stack.exit().unwrap().name(), "A");
}

#[test]
fn a_pass_cannot_end_with_a_scope_open() {
    let mut stack = ScopeStack::new();
    stack.enter("A").unwrap();
    assert_eq!(stack.finish(), Err(GenError::UnbalancedScope("A".to_string())));
    stack.enter("B").unwrap();
    assert_eq!(stack.finish(), Err(GenError::UnbalancedScope("A.B".to_string())));
    stack.exit().unwrap();
    stack.exit().unwrap();
    assert_eq!(stack.finish(), Ok(()));
}

#[test]
fn a_malformed_scope_name_is_refused() {
    let mut stack = ScopeStack::new();
    assert_eq!(stack.enter(""), Err(GenError::MalformedName));
    assert_eq!(stack.enter("A.B"), Err(GenError::MalformedName));
    assert!(stack.is_empty());
    stack.enter("A").unwrap();
    assert_eq!(stack.enter("."), Err(GenError::MalformedName));
    assert_eq!(stack.current_path(), "A");
    assert_eq!(stack.depth(), 1);
}

#[test]
fn the_same_name_can_be_entered_inside_itself() {
    let mut stack = ScopeStack::new();
    stack.enter("Fp").unwrap();
    stack.enter("Fp").unwrap();
    assert_eq!(stack.current_path(), "Fp.Fp");
}

fn a_type(path: &str, name: &str) -> ForeignDeclaration {
    ForeignDeclaration {
        kind: DeclKind::Type,
        path: path.to_string(),
        name: name.to_string(),
        placeholders: vec![0],
    }
}

#[test]
fn a_declaration_is_recorded_in_the_innermost_scope() {
    let mut stack = ScopeStack::new();
    stack.enter("A").unwrap();
    stack.record(a_type("A", "t")).unwrap();
    stack.enter("B").unwrap();
    stack.record(a_type("A.B", "u")).unwrap();
    stack.record(a_type("A.B", "v")).unwrap();
    assert_eq!(stack.innermost().unwrap().declarations().len(), 2);
    let inner = stack.exit().unwrap();
    assert_eq!(inner.declarations(), &vec![a_type("A.B", "u"), a_type("A.B", "v")]);
    assert_eq!(stack.current_path(), "A");
    let outer = stack.exit().unwrap();
    assert_eq!(outer.declarations(), &vec![a_type("A", "t")]);
}

#[test]
fn a_declaration_needs_an_open_scope() {
    let mut stack = ScopeStack::new();
    assert_eq!(stack.record(a_type("", "t")), Err(GenError::ScopeUnderflow));
    assert!(stack.is_empty());
}
