use declgen::decl::TypeExpr;
use declgen::error::GenError;
use declgen::pass::Pass;
use declgen::script::append_steps;
use declgen::script::new_script;
use declgen::script::push_step;
use declgen::script::Step;

#[test]
fn an_empty_script_does_nothing() {
    let mut pass = Pass::new(3);
    assert_eq!(pass.run(&new_script()), Ok(()));
    assert!(pass.lines().is_empty());
    assert_eq!(pass.depth(), 0);
}

#[test]
fn constructors_build_the_step_they_name() {
    assert_eq!(Step::comment("x"), Step::Comment { text: "x".to_string() });
    assert_eq!(Step::enter("M"), Step::Enter { name: "M".to_string() });
    assert_eq!(Step::module("M"), Step::OpenModule { name: "M".to_string() });
    assert_eq!(Step::ty("Foo", "t", 2), Step::Type { native: "Foo".to_string(), name: "t".to_string(), arity: 2 });
    assert_eq!(
        Step::function("foo_make", "make"),
        Step::Function { native: "foo_make".to_string(), name: "make".to_string() }
    );
    assert_eq!(
        Step::alias("t", TypeExpr::named("Foo")),
        Step::Alias { name: "t".to_string(), target: TypeExpr::named("Foo") }
    );
    assert_eq!(
        Step::import("P", "Foo", "t", 1),
        Step::Import { path: "P".to_string(), native: "Foo".to_string(), name: "t".to_string(), arity: 1 }
    );
}

#[test]
fn steps_are_kept_in_order() {
    let mut steps = new_script();
    push_step(&mut steps, Step::Header);
    push_step(&mut steps, Step::module("M"));
    let mut more = new_script();
    push_step(&mut more, Step::ty("Foo", "t", 0));
    push_step(&mut more, Step::CloseModule);
    append_steps(&mut steps, more);
    assert_eq!(steps, vec![Step::Header, Step::module("M"), Step::ty("Foo", "t", 0), Step::CloseModule]);
}

#[test]
fn a_script_is_walked_in_order() {
    let steps = vec![
        Step::Header,
        Step::enter("Root"),
        Step::comment("Types."),
        Step::module("M"),
        Step::ty("Foo", "t", 1),
        Step::function("foo_make", "make"),
        Step::alias("u", TypeExpr::named("Foo")),
        Step::CloseModule,
        Step::Exit,
    ];
    let mut pass = Pass::new(3);
    assert_eq!(pass.run(&steps), Ok(()));
    assert_eq!(
        pass.finish(),
        Ok(vec![
            "(* This file is generated automatically with ocaml_gen. *)".to_string(),
            "(** Types. *)".to_string(),
            "module Root.M = struct".to_string(),
            "type 'T1 Root.M.t".to_string(),
            "external Root.M.make = \"foo_make\"".to_string(),
            "type Root.M.u = Root.M.t".to_string(),
            "end".to_string(),
        ])
    );
}

#[test]
fn a_script_stops_at_the_first_failure() {
    let steps = vec![
        Step::module("M"),
        Step::ty("Foo", "t", 1),
        Step::ty("Bar", "t", 0),
        Step::ty("Baz", "u", 0),
        Step::CloseModule,
    ];
    let mut pass = Pass::new(3);
    assert_eq!(pass.run(&steps), Err(GenError::DuplicateDeclaration));
    assert_eq!(pass.lines(), &vec!["module M = struct".to_string(), "type 'T1 M.t".to_string()]);
    assert_eq!(pass.registry().len(), 1);
    assert_eq!(pass.depth(), 1);
    assert_eq!(pass.finish(), Err(GenError::UnbalancedScope("M".to_string())));
}

#[test]
fn each_step_reports_its_own_error() {
    let mut pass = Pass::new(3);
    assert_eq!(pass.apply(&Step::Exit), Err(GenError::ScopeUnderflow));
    assert_eq!(pass.apply(&Step::CloseModule), Err(GenError::ScopeUnderflow));
    assert_eq!(pass.apply(&Step::enter("a.b")), Err(GenError::MalformedName));
    assert_eq!(pass.apply(&Step::ty("Foo", "t", 0)), Err(GenError::ScopeUnderflow));
    assert_eq!(pass.apply(&Step::enter("M")), Ok(()));
    assert_eq!(pass.apply(&Step::ty("Foo", "t", 4)), Err(GenError::UnknownPlaceholder));
    assert_eq!(pass.apply(&Step::alias("t", TypeExpr::named("Foo"))), Err(GenError::UnknownTarget));
    assert_eq!(pass.apply(&Step::import("M", "Foo", "t", 0)), Ok(()));
    assert_eq!(pass.apply(&Step::function("foo", "t")), Err(GenError::DuplicateDeclaration));
    assert_eq!(pass.apply(&Step::Exit), Ok(()));
    assert!(pass.lines().is_empty());
}
