//! Scripts: the operations of a pass as data, and the interpreter that walks
//! them in order and stops at the first that fails.
use crate::decl::TypeExpr;
use crate::decl::TypeExprView;
use crate::error::GenError;
use crate::pass::header_line;
use crate::pass::Pass;
use crate::pass::PassView;
use crate::decl::comment_line;
use vstd::prelude::*;
use vstd::string::StringExecFns;

verus! {

/// One operation of a pass.
#[derive(Debug, PartialEq, Eq)]
pub enum Step {
    /// Write the header of the sink.
    Header,
    /// Write a remark.
    Comment { text: String },
    /// Enter a scope without writing.
    Enter { name: String },
    /// Leave the innermost scope without writing.
    Exit,
    /// Open a nested module.
    OpenModule { name: String },
    /// Close the innermost module.
    CloseModule,
    /// Declare a type.
    Type { native: String, name: String, arity: usize },
    /// Declare a function.
    Function { native: String, name: String },
    /// Declare a synonym.
    Alias { name: String, target: TypeExpr },
    /// Take over a type that is declared outside the pass.
    Import { path: String, native: String, name: String, arity: usize },
}

/// The mathematical content of a [`Step`].
pub enum StepView {
    Header,
    Comment { text: Seq<char> },
    Enter { name: Seq<char> },
    Exit,
    OpenModule { name: Seq<char> },
    CloseModule,
    Type { native: Seq<char>, name: Seq<char>, arity: nat },
    Function { native: Seq<char>, name: Seq<char> },
    Alias { name: Seq<char>, target: TypeExprView },
    Import { path: Seq<char>, native: Seq<char>, name: Seq<char>, arity: nat },
}

impl View for Step {
    type V = StepView;

    open spec fn view(&self) -> StepView {
        match self {
            Step::Header => StepView::Header,
            Step::Comment { text } => StepView::Comment { text: text@ },
            Step::Enter { name } => StepView::Enter { name: name@ },
            Step::Exit => StepView::Exit,
            Step::OpenModule { name } => StepView::OpenModule { name: name@ },
            Step::CloseModule => StepView::CloseModule,
            Step::Type { native, name, arity } => StepView::Type {
                native: native@,
                name: name@,
                arity: *arity as nat,
            },
            Step::Function { native, name } => StepView::Function { native: native@, name: name@ },
            Step::Alias { name, target } => StepView::Alias { name: name@, target: target@ },
            Step::Import { path, native, name, arity } => StepView::Import {
                path: path@,
                native: native@,
                name: name@,
                arity: *arity as nat,
            },
        }
    }
}

/// The views of a sequence of steps.
pub open spec fn step_views(steps: Seq<Step>) -> Seq<StepView> {
    steps.map_values(|s: Step| s@)
}

/// A script without steps.
pub fn new_script() -> (steps: Vec<Step>)
    ensures
        step_views(steps@) == Seq::<StepView>::empty(),
{
    let steps: Vec<Step> = Vec::new();
    assert(step_views(steps@) =~= Seq::<StepView>::empty());
    steps
}

/// Appends `step` to the script `steps`.
pub fn push_step(steps: &mut Vec<Step>, step: Step)
    ensures
        step_views(final(steps)@) == step_views(old(steps)@).push(step@),
{
    steps.push(step);
    assert(step_views(steps@) =~= step_views(old(steps)@).push(step@));
}

/// Appends the script `more` to the script `steps`.
pub fn append_steps(steps: &mut Vec<Step>, more: Vec<Step>)
    ensures
        step_views(final(steps)@) == step_views(old(steps)@) + step_views(more@),
{
    let ghost added = more@;
    let mut rest = more;
    steps.append(&mut rest);
    assert(step_views(steps@) =~= step_views(old(steps)@) + step_views(added));
}

impl PassView {
    /// What one step does to a pass.
    pub open spec fn step(self, step: StepView) -> Result<PassView, GenError> {
        match step {
            StepView::Header => Ok(self.write(header_line())),
            StepView::Comment { text } => Ok(self.write(comment_line(text))),
            StepView::Enter { name } => self.enter(name),
            StepView::Exit => self.exit(),
            StepView::OpenModule { name } => self.open_module(name),
            StepView::CloseModule => self.close_module(),
            StepView::Type { native, name, arity } => self.declare_type(native, name, arity),
            StepView::Function { native, name } => self.declare_function(native, name),
            StepView::Alias { name, target } => self.declare_alias(name, target),
            StepView::Import { path, native, name, arity } => self.import_type(path, native, name, arity),
        }
    }

    /// What a script does to a pass: the steps are taken in order up to the
    /// first that fails. Yields the state that the pass is left in, and the
    /// error of the failed step, if one failed.
    pub open spec fn run(self, steps: Seq<StepView>) -> (PassView, Option<GenError>)
        decreases steps.len(),
    {
        if steps.len() == 0 {
            (self, None)
        } else {
            match self.step(steps[0]) {
                Ok(next) => next.run(steps.drop_first()),
                Err(e) => (self, Some(e)),
            }
        }
    }
}

/// Running two scripts one after the other is running their concatenation: the
/// second starts where the first ended, unless the first failed.
pub proof fn lemma_run_concat(pre: PassView, first: Seq<StepView>, second: Seq<StepView>)
    ensures
        pre.run(first + second) == if pre.run(first).1 is Some {
            pre.run(first)
        } else {
            pre.run(first).0.run(second)
        },
    decreases first.len(),
{
    if first.len() == 0 {
        assert(first + second =~= second);
    } else {
        assert((first + second)[0] == first[0]);
        assert((first + second).drop_first() =~= first.drop_first() + second);
        match pre.step(first[0]) {
            Ok(next) => {
                lemma_run_concat(next, first.drop_first(), second);
            },
            Err(_) => {},
        }
    }
}

/// Running a script of one step is taking that step.
pub proof fn lemma_run_one(pre: PassView, step: StepView)
    ensures
        pre.run(seq![step]) == match pre.step(step) {
            Ok(next) => (next, None::<GenError>),
            Err(e) => (pre, Some(e)),
        },
{
    let steps = seq![step];
    assert(steps[0] == step);
    assert(steps.drop_first() =~= Seq::<StepView>::empty());
    match pre.step(step) {
        Ok(next) => {
            assert(next.run(Seq::<StepView>::empty()) == (next, None::<GenError>));
        },
        Err(_) => {},
    }
}

impl Step {
    /// The step that writes the remark `text`.
    pub fn comment(text: &str) -> (step: Step)
        ensures
            step@ == (StepView::Comment { text: text@ }),
    {
        Step::Comment { text: String::from_str(text) }
    }

    /// The step that enters the scope `name` without writing.
    pub fn enter(name: &str) -> (step: Step)
        ensures
            step@ == (StepView::Enter { name: name@ }),
    {
        Step::Enter { name: String::from_str(name) }
    }

    /// The step that opens the nested module `name`.
    pub fn module(name: &str) -> (step: Step)
        ensures
            step@ == (StepView::OpenModule { name: name@ }),
    {
        Step::OpenModule { name: String::from_str(name) }
    }

    /// The step that declares the type `native` of `arity` parameters as `name`.
    pub fn ty(native: &str, name: &str, arity: usize) -> (step: Step)
        ensures
            step@ == (StepView::Type { native: native@, name: name@, arity: arity as nat }),
    {
        Step::Type { native: String::from_str(native), name: String::from_str(name), arity }
    }

    /// The step that declares the function `native` as `name`.
    pub fn function(native: &str, name: &str) -> (step: Step)
        ensures
            step@ == (StepView::Function { native: native@, name: name@ }),
    {
        Step::Function { native: String::from_str(native), name: String::from_str(name) }
    }

    /// The step that declares `name` as a synonym for `target`.
    pub fn alias(name: &str, target: TypeExpr) -> (step: Step)
        ensures
            step@ == (StepView::Alias { name: name@, target: target@ }),
    {
        Step::Alias { name: String::from_str(name), target }
    }

    /// The step that takes over the type `native`, declared as `name` in the
    /// module at `path` outside the pass.
    pub fn import(path: &str, native: &str, name: &str, arity: usize) -> (step: Step)
        ensures
            step@ == (StepView::Import { path: path@, native: native@, name: name@, arity: arity as nat }),
    {
        Step::Import {
            path: String::from_str(path),
            native: String::from_str(native),
            name: String::from_str(name),
            arity,
        }
    }
}

impl Pass {
    /// Takes one step.
    pub fn apply(&mut self, step: &Step) -> (result: Result<(), GenError>)
        requires
            old(self).wf(),
        ensures
            final(self).wf(),
            match old(self)@.step(step@) {
                Ok(post) => result is Ok && final(self)@ == post,
                Err(e) => result == Err::<(), GenError>(e) && final(self)@ == old(self)@,
            },
    {
        match step {
            Step::Header => {
                self.write_header();
                Ok(())
            },
            Step::Comment { text } => {
                self.comment(text.as_str());
                Ok(())
            },
            Step::Enter { name } => self.enter(name.as_str()),
            Step::Exit => match self.exit() {
                Ok(_) => Ok(()),
                Err(e) => Err(e),
            },
            Step::OpenModule { name } => self.open_module(name.as_str()),
            Step::CloseModule => match self.close_module() {
                Ok(_) => Ok(()),
                Err(e) => Err(e),
            },
            Step::Type { native, name, arity } => self.declare_type(native.as_str(), name.as_str(), *arity),
            Step::Function { native, name } => self.declare_function(native.as_str(), name.as_str()),
            Step::Alias { name, target } => self.declare_alias(name.as_str(), target),
            Step::Import { path, native, name, arity } => self.import_type(
                path.as_str(),
                native.as_str(),
                name.as_str(),
                *arity,
            ),
        }
    }

    /// Walks `steps` in order and stops at the first step that fails: what was
    /// written before stays written, and nothing after it is attempted.
    pub fn run(&mut self, steps: &Vec<Step>) -> (result: Result<(), GenError>)
        requires
            old(self).wf(),
        ensures
            final(self).wf(),
            final(self)@ == old(self)@.run(step_views(steps@)).0,
            match old(self)@.run(step_views(steps@)).1 {
                Some(e) => result == Err::<(), GenError>(e),
                None => result is Ok,
            },
    {
        let ghost views = step_views(steps@);
        let mut i: usize = 0;
        assert(views.skip(0) =~= views);
        while i < steps.len()
            invariant
                i <= steps.len(),
                self.wf(),
                views == step_views(steps@),
                old(self)@.run(views) == self@.run(views.skip(i as int)),
            decreases steps.len() - i,
        {
            let ghost rest = views.skip(i as int);
            assert(rest[0] == steps@[i as int]@);
            assert(rest.drop_first() =~= views.skip(i + 1));
            match self.apply(&steps[i]) {
                Ok(_) => {},
                Err(e) => {
                    return Err(e);
                },
            }
            i += 1;
        }
        Ok(())
    }
}

} // verus!
