//! The module scope stack: the namespaces that are open at a point of a pass,
//! outermost first.
use crate::decl::DeclView;
use crate::decl::ForeignDeclaration;
use crate::error::GenError;
use crate::text::dotted;
use crate::text::is_well_formed_name;
use crate::text::qualified;
use crate::text::qualify;
use crate::text::well_formed_name;
use vstd::prelude::*;
use vstd::string::StringExecFns;

verus! {

/// One open namespace, with the declarations emitted directly inside it.
#[derive(Debug, Clone, PartialEq, Eq)]
pub struct ScopeFrame {
    name: String,
    path: String,
    declarations: Vec<ForeignDeclaration>,
}

/// The mathematical content of a [`ScopeFrame`].
pub struct FrameView {
    /// The name of the module.
    pub name: Seq<char>,
    /// The qualified path of the module.
    pub path: Seq<char>,
    /// The declarations emitted directly inside the module, in order.
    pub declarations: Seq<DeclView>,
}

/// The views of a sequence of declarations.
pub open spec fn decl_views(decls: Seq<ForeignDeclaration>) -> Seq<DeclView> {
    decls.map_values(|d: ForeignDeclaration| d@)
}

impl View for ScopeFrame {
    type V = FrameView;

    closed spec fn view(&self) -> FrameView {
        FrameView { name: self.name@, path: self.path@, declarations: decl_views(self.declarations@) }
    }
}

impl ScopeFrame {
    /// The name of the module.
    pub fn name(&self) -> (name: &str)
        ensures
            name@ == self@.name,
    {
        self.name.as_str()
    }

    /// The qualified path of the module.
    pub fn path(&self) -> (path: &str)
        ensures
            path@ == self@.path,
    {
        self.path.as_str()
    }

    /// The declarations emitted directly inside the module, in order.
    pub fn declarations(&self) -> (decls: &Vec<ForeignDeclaration>)
        ensures
            decl_views(decls@) == self@.declarations,
    {
        &self.declarations
    }
}

/// The names of `frames`, outermost first.
pub open spec fn frame_names(frames: Seq<FrameView>) -> Seq<Seq<char>> {
    frames.map_values(|f: FrameView| f.name)
}

/// The qualified path of the innermost of `frames`: their names joined by the
/// separator; empty where no scope is open.
pub open spec fn path_of(frames: Seq<FrameView>) -> Seq<char> {
    dotted(frame_names(frames))
}

/// Every frame has a well-formed name and holds the qualified path that its
/// position gives it.
pub open spec fn well_formed(frames: Seq<FrameView>) -> bool {
    forall|i: int|
        0 <= i < frames.len() ==> well_formed_name((#[trigger] frames[i]).name) && frames[i].path == path_of(
            frames.take(i + 1),
        )
}

/// What entering the module `name` does to the stack.
pub open spec fn enter_spec(frames: Seq<FrameView>, name: Seq<char>) -> Result<Seq<FrameView>, GenError> {
    if !well_formed_name(name) {
        Err(GenError::MalformedName)
    } else {
        Ok(frames.push(FrameView { name, path: qualify(path_of(frames), name), declarations: Seq::empty() }))
    }
}

/// What leaving the innermost module does to the stack.
pub open spec fn exit_spec(frames: Seq<FrameView>) -> Result<Seq<FrameView>, GenError> {
    if frames.len() == 0 {
        Err(GenError::ScopeUnderflow)
    } else {
        Ok(frames.drop_last())
    }
}

/// What recording a declaration in the innermost module does to the stack.
pub open spec fn record_spec(frames: Seq<FrameView>, decl: DeclView) -> Result<Seq<FrameView>, GenError> {
    if frames.len() == 0 {
        Err(GenError::ScopeUnderflow)
    } else {
        Ok(
            frames.update(
                frames.len() - 1,
                FrameView {
                    name: frames.last().name,
                    path: frames.last().path,
                    declarations: frames.last().declarations.push(decl),
                },
            ),
        )
    }
}

/// The path of a stack grows by one qualified name with each frame.
pub proof fn lemma_path_of_push(frames: Seq<FrameView>, frame: FrameView)
    ensures
        path_of(frames.push(frame)) == qualify(path_of(frames), frame.name),
{
    let names = frame_names(frames.push(frame));
    assert(names.drop_last() =~= frame_names(frames));
    assert(names.last() == frame.name);
}

/// In a well-formed stack the innermost frame holds the path of the stack.
pub proof fn lemma_path_of_last(frames: Seq<FrameView>)
    requires
        well_formed(frames),
        frames.len() > 0,
    ensures
        frames.last().path == path_of(frames),
{
    assert(frames.take(frames.len() as int) =~= frames);
}

/// A prefix of a well-formed stack is well formed.
pub proof fn lemma_prefix_well_formed(frames: Seq<FrameView>, n: int)
    requires
        well_formed(frames),
        0 <= n <= frames.len(),
    ensures
        well_formed(frames.take(n)),
{
    let prefix = frames.take(n);
    assert forall|i: int| 0 <= i < prefix.len() implies well_formed_name((#[trigger] prefix[i]).name)
        && prefix[i].path == path_of(prefix.take(i + 1)) by {
        assert(prefix[i] == frames[i]);
        assert(prefix.take(i + 1) =~= frames.take(i + 1));
    }
}

/// Entering a scope keeps a stack well formed.
pub proof fn lemma_enter_keeps_well_formed(frames: Seq<FrameView>, name: Seq<char>)
    requires
        well_formed(frames),
        well_formed_name(name),
    ensures
        well_formed(enter_spec(frames, name)->Ok_0),
{
    let after = enter_spec(frames, name)->Ok_0;
    assert forall|i: int| 0 <= i < after.len() implies well_formed_name((#[trigger] after[i]).name)
        && after[i].path == path_of(after.take(i + 1)) by {
        if i < frames.len() {
            assert(after[i] == frames[i]);
            assert(after.take(i + 1) =~= frames.take(i + 1));
        } else {
            assert(after.take(i + 1) =~= after);
            lemma_path_of_push(frames, after.last());
        }
    }
}

/// Leaving a scope keeps a stack well formed.
pub proof fn lemma_exit_keeps_well_formed(frames: Seq<FrameView>)
    requires
        well_formed(frames),
        frames.len() > 0,
    ensures
        well_formed(exit_spec(frames)->Ok_0),
{
    assert(frames.drop_last() =~= frames.take(frames.len() - 1));
    lemma_prefix_well_formed(frames, frames.len() - 1);
}

/// Recording a declaration keeps a stack well formed, and keeps its path.
pub proof fn lemma_record_keeps_well_formed(frames: Seq<FrameView>, decl: DeclView)
    requires
        well_formed(frames),
        frames.len() > 0,
    ensures
        well_formed(record_spec(frames, decl)->Ok_0),
        path_of(record_spec(frames, decl)->Ok_0) == path_of(frames),
{
    let after = record_spec(frames, decl)->Ok_0;
    assert(frame_names(after) =~= frame_names(frames));
    assert forall|i: int| 0 <= i < after.len() implies well_formed_name((#[trigger] after[i]).name)
        && after[i].path == path_of(after.take(i + 1)) by {
        assert(after[i].name == frames[i].name);
        assert(after[i].path == frames[i].path);
        assert(frame_names(after.take(i + 1)) =~= frame_names(frames.take(i + 1)));
    }
}

/// The stack of the scopes that are open.
pub struct ScopeStack {
    frames: Vec<ScopeFrame>,
}

impl View for ScopeStack {
    type V = Seq<FrameView>;

    closed spec fn view(&self) -> Seq<FrameView> {
        self.frames@.map_values(|f: ScopeFrame| f@)
    }
}

impl ScopeStack {
    /// The invariant of the stack: see [`well_formed`].
    pub open spec fn wf(&self) -> bool {
        well_formed(self@)
    }

    /// A stack with no scope open.
    pub fn new() -> (stack: ScopeStack)
        ensures
            stack.wf(),
            stack@ == Seq::<FrameView>::empty(),
    {
        let stack = ScopeStack { frames: Vec::new() };
        assert(stack@ =~= Seq::<FrameView>::empty());
        stack
    }

    /// The number of open scopes.
    pub fn depth(&self) -> (n: usize)
        ensures
            n == self@.len(),
    {
        self.frames.len()
    }

    /// Tells whether no scope is open.
    pub fn is_empty(&self) -> (empty: bool)
        ensures
            empty == (self@.len() == 0),
    {
        self.frames.len() == 0
    }

    /// The qualified path of the innermost open scope: the names of the open
    /// scopes, outermost first, joined by the separator.
    pub fn current_path(&self) -> (path: String)
        requires
            self.wf(),
        ensures
            path@ == path_of(self@),
    {
        let n: usize = self.frames.len();
        if n == 0 {
            assert(frame_names(self@) =~= Seq::<Seq<char>>::empty());
            String::new()
        } else {
            proof {
                lemma_path_of_last(self@);
            }
            self.frames[n - 1].path.clone()
        }
    }

    /// The innermost open scope, if there is one.
    pub fn innermost(&self) -> (frame: Option<&ScopeFrame>)
        ensures
            self@.len() == 0 ==> frame is None,
            self@.len() > 0 ==> (frame matches Some(f) && f@ == self@.last()),
    {
        let n: usize = self.frames.len();
        if n == 0 {
            None
        } else {
            Some(&self.frames[n - 1])
        }
    }

    /// Opens the scope `name` inside the innermost open scope. Its qualified path
    /// is that of its parent, the separator and `name`.
    pub fn enter(&mut self, name: &str) -> (result: Result<(), GenError>)
        requires
            old(self).wf(),
        ensures
            final(self).wf(),
            match enter_spec(old(self)@, name@) {
                Ok(frames) => result is Ok && final(self)@ == frames,
                Err(e) => result == Err::<(), GenError>(e) && final(self)@ == old(self)@,
            },
    {
        if !is_well_formed_name(name) {
            return Err(GenError::MalformedName);
        }
        let parent = self.current_path();
        let frame = ScopeFrame {
            name: String::from_str(name),
            path: qualified(parent.as_str(), name),
            declarations: Vec::new(),
        };
        assert(frame@.declarations =~= Seq::<DeclView>::empty());
        let ghost before = self@;
        self.frames.push(frame);
        proof {
            assert(self@ =~= before.push(frame@));
            lemma_enter_keeps_well_formed(before, name@);
        }
        Ok(())
    }

    /// Closes the innermost open scope and hands back its sealed frame. There is
    /// no closing by name: the scope that leaves is the one that was opened last.
    pub fn exit(&mut self) -> (result: Result<ScopeFrame, GenError>)
        requires
            old(self).wf(),
        ensures
            final(self).wf(),
            match exit_spec(old(self)@) {
                Ok(frames) => result matches Ok(frame) && frame@ == old(self)@.last() && final(self)@ == frames,
                Err(e) => result == Err::<ScopeFrame, GenError>(e) && final(self)@ == old(self)@,
            },
    {
        let ghost before = self@;
        match self.frames.pop() {
            None => Err(GenError::ScopeUnderflow),
            Some(frame) => {
                proof {
                    assert(self@ =~= before.drop_last());
                    lemma_exit_keeps_well_formed(before);
                }
                Ok(frame)
            },
        }
    }

    /// Adds `decl` to the declarations of the innermost open scope.
    pub fn record(&mut self, decl: ForeignDeclaration) -> (result: Result<(), GenError>)
        requires
            old(self).wf(),
        ensures
            final(self).wf(),
            match record_spec(old(self)@, decl@) {
                Ok(frames) => result is Ok && final(self)@ == frames,
                Err(e) => result == Err::<(), GenError>(e) && final(self)@ == old(self)@,
            },
    {
        let ghost before = self@;
        match self.frames.pop() {
            None => Err(GenError::ScopeUnderflow),
            Some(frame) => {
                let mut frame = frame;
                let ghost sealed = frame@;
                let ghost decls = frame.declarations@;
                frame.declarations.push(decl);
                assert(decl_views(frame.declarations@) =~= decl_views(decls).push(decl@));
                self.frames.push(frame);
                proof {
                    assert(self@ =~= record_spec(before, decl@)->Ok_0);
                    lemma_record_keeps_well_formed(before, decl@);
                }
                Ok(())
            },
        }
    }

    /// Checks that the pass may end: no scope is open. Otherwise the error names
    /// the innermost scope that is still open, by its qualified path.
    pub fn finish(&self) -> (result: Result<(), GenError>)
        requires
            self.wf(),
        ensures
            self@.len() == 0 ==> result is Ok,
            self@.len() > 0 ==> (result matches Err(GenError::UnbalancedScope(path)) && path@ == path_of(self@)),
    {
        if self.frames.len() == 0 {
            Ok(())
        } else {
            Err(GenError::UnbalancedScope(self.current_path()))
        }
    }
}

} // verus!
