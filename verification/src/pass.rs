//! One generation pass: the scope stack, the name registry, the placeholder
//! table and the sink, and the emitters that act on all four.
use crate::decl::alias_line;
use crate::decl::comment_line;
use crate::decl::first_slots;
use crate::decl::function_line;
use crate::decl::join_arguments;
use crate::decl::module_close_line;
use crate::decl::module_open_line;
use crate::decl::natives_declared;
use crate::decl::parameters;
use crate::decl::render_expr;
use crate::decl::slot_bound;
use crate::decl::slots_registered;
use crate::decl::texts;
use crate::decl::type_line;
use crate::decl::DeclKind;
use crate::decl::DeclView;
use crate::decl::ForeignDeclaration;
use crate::decl::TypeExpr;
use crate::decl::TypeExprView;
use crate::error::GenError;
use crate::placeholder::slot_reference;
use crate::placeholder::Placeholder;
use crate::placeholder::PlaceholderTable;
use crate::registry;
use crate::registry::is_bound;
use crate::registry::BindingKind;
use crate::registry::BindingView;
use crate::registry::NameRegistry;
use crate::scope;
use crate::scope::path_of;
use crate::scope::FrameView;
use crate::scope::ScopeFrame;
use crate::scope::ScopeStack;
use crate::text::is_well_formed_name;
use crate::text::qualified;
use crate::text::qualify;
use crate::text::well_formed_name;
use vstd::prelude::*;
use vstd::string::StringExecFns;

verus! {

/// The mathematical content of a [`Pass`].
pub struct PassView {
    /// The open scopes, outermost first.
    pub frames: Seq<FrameView>,
    /// The bindings made so far, in order.
    pub entries: Seq<BindingView>,
    /// The number of registered placeholder slots.
    pub slots: nat,
    /// The lines written so far, in order.
    pub lines: Seq<Seq<char>>,
}

/// The first line of every sink.
pub open spec fn header_line() -> Seq<char> {
    "(* This file is generated automatically with ocaml_gen. *)"@
}

impl PassView {
    /// The state of a pass that has done nothing yet.
    pub open spec fn fresh(slots: nat) -> PassView {
        PassView { frames: Seq::empty(), entries: Seq::empty(), slots, lines: Seq::empty() }
    }

    /// The qualified path of the innermost open scope.
    pub open spec fn path(self) -> Seq<char> {
        path_of(self.frames)
    }

    /// The scopes and the registry are well formed.
    pub open spec fn well_formed(self) -> bool {
        scope::well_formed(self.frames) && registry::well_formed(self.entries)
    }

    /// The state after `line` was written.
    pub open spec fn write(self, line: Seq<char>) -> PassView {
        PassView { lines: self.lines.push(line), ..self }
    }

    /// The state after `decl` was recorded in the innermost open scope; unchanged
    /// where no scope is open.
    pub open spec fn record(self, decl: DeclView) -> PassView {
        match scope::record_spec(self.frames, decl) {
            Ok(frames) => PassView { frames, ..self },
            Err(_) => self,
        }
    }

    /// The state after `binding` was added to the registry.
    pub open spec fn bind(self, binding: BindingView) -> PassView {
        PassView { entries: self.entries.push(binding), ..self }
    }

    /// What entering the scope `name` without writing does.
    pub open spec fn enter(self, name: Seq<char>) -> Result<PassView, GenError> {
        match scope::enter_spec(self.frames, name) {
            Ok(frames) => Ok(PassView { frames, ..self }),
            Err(e) => Err(e),
        }
    }

    /// What leaving the innermost scope without writing does.
    pub open spec fn exit(self) -> Result<PassView, GenError> {
        match scope::exit_spec(self.frames) {
            Ok(frames) => Ok(PassView { frames, ..self }),
            Err(e) => Err(e),
        }
    }

    /// What opening the module `name` does: the opening is recorded in the
    /// enclosing scope, the module is entered, and its opening line is written.
    pub open spec fn open_module(self, name: Seq<char>) -> Result<PassView, GenError> {
        if !well_formed_name(name) {
            Err(GenError::MalformedName)
        } else {
            let opening = DeclView {
                kind: DeclKind::ModuleOpen,
                path: self.path(),
                name,
                placeholders: Seq::empty(),
            };
            let recorded = self.record(opening);
            match recorded.enter(name) {
                Ok(entered) => Ok(entered.write(module_open_line(entered.path()))),
                Err(e) => Err(e),
            }
        }
    }

    /// What closing the innermost module does: the module is left, its closing
    /// is recorded in the enclosing scope, and the closing line is written.
    pub open spec fn close_module(self) -> Result<PassView, GenError> {
        match self.exit() {
            Err(e) => Err(e),
            Ok(left) => {
                let closing = DeclView {
                    kind: DeclKind::ModuleClose,
                    path: left.path(),
                    name: self.frames.last().name,
                    placeholders: Seq::empty(),
                };
                Ok(left.record(closing).write(module_close_line()))
            },
        }
    }

    /// Why the name `name` cannot be declared in the innermost open scope, if it
    /// cannot: no scope is open, the name is malformed, the declaration needs
    /// more slots than are registered, or the name is taken; in this order.
    pub open spec fn refusal(self, name: Seq<char>, slots_needed: nat) -> Option<GenError> {
        if self.frames.len() == 0 {
            Some(GenError::ScopeUnderflow)
        } else if !well_formed_name(name) {
            Some(GenError::MalformedName)
        } else if slots_needed > self.slots {
            Some(GenError::UnknownPlaceholder)
        } else if is_bound(self.entries, self.path(), name) {
            Some(GenError::DuplicateDeclaration)
        } else {
            None
        }
    }

    /// What declaring the native type `native` of `arity` parameters under the
    /// foreign name `name` does.
    pub open spec fn declare_type(self, native: Seq<char>, name: Seq<char>, arity: nat) -> Result<
        PassView,
        GenError,
    > {
        match self.refusal(name, arity) {
            Some(e) => Err(e),
            None => Ok(
                self.bind(
                    BindingView { path: self.path(), name, native, arity, kind: BindingKind::Type },
                ).record(
                    DeclView { kind: DeclKind::Type, path: self.path(), name, placeholders: first_slots(arity) },
                ).write(type_line(self.path(), name, arity)),
            ),
        }
    }

    /// What declaring the native function `native` under the foreign name `name` does.
    pub open spec fn declare_function(self, native: Seq<char>, name: Seq<char>) -> Result<PassView, GenError> {
        match self.refusal(name, 0) {
            Some(e) => Err(e),
            None => Ok(
                self.bind(
                    BindingView { path: self.path(), name, native, arity: 0, kind: BindingKind::Function },
                ).record(
                    DeclView { kind: DeclKind::Function, path: self.path(), name, placeholders: Seq::empty() },
                ).write(function_line(self.path(), name, native)),
            ),
        }
    }

    /// What declaring the foreign name `name` as a synonym for `target` does. The
    /// synonym is bound to the native type at the head of `target` and takes its arity.
    pub open spec fn declare_alias(self, name: Seq<char>, target: TypeExprView) -> Result<PassView, GenError> {
        if self.frames.len() == 0 {
            Err(GenError::ScopeUnderflow)
        } else if !well_formed_name(name) {
            Err(GenError::MalformedName)
        } else if !slots_registered(target, self.slots) {
            Err(GenError::UnknownPlaceholder)
        } else if is_bound(self.entries, self.path(), name) {
            Err(GenError::DuplicateDeclaration)
        } else if target is Slot || !natives_declared(target, self.entries) {
            Err(GenError::UnknownTarget)
        } else {
            Ok(
                self.bind(
                    BindingView {
                        path: self.path(),
                        name,
                        native: target->Apply_native,
                        arity: registry::declaration_of(self.entries, target->Apply_native).arity,
                        kind: BindingKind::Alias,
                    },
                ).record(
                    DeclView {
                        kind: DeclKind::TypeAlias,
                        path: self.path(),
                        name,
                        placeholders: first_slots(slot_bound(target)),
                    },
                ).write(alias_line(self.path(), name, slot_bound(target), render_expr(target, self.entries))),
            )
        }
    }

    /// What taking over a type that is declared outside this pass does: the
    /// binding is registered under the given path and nothing is written.
    pub open spec fn import_type(self, path: Seq<char>, native: Seq<char>, name: Seq<char>, arity: nat) -> Result<
        PassView,
        GenError,
    > {
        match registry::declare_type_spec(self.entries, path, native, name, arity) {
            Ok(entries) => Ok(PassView { entries, ..self }),
            Err(e) => Err(e),
        }
    }
}

/// The generic parameters of a declaration over the first `n` slots of `table`.
fn parameter_text(table: &PlaceholderTable, n: usize) -> (text: String)
    requires
        table.wf(),
        n <= table.count(),
    ensures
        text@ == parameters(first_slots(n as nat)),
{
    let mut items: Vec<String> = Vec::new();
    let mut i: usize = 0;
    while i < n
        invariant
            i <= n,
            n <= table.count(),
            table.wf(),
            items@.len() == i,
            forall|j: int| 0 <= j < i ==> (#[trigger] items@[j])@ == slot_reference(j as nat),
        decreases n - i,
    {
        match table.reference(i) {
            Ok(item) => {
                items.push(item);
            },
            Err(_) => {
                items.push(String::new());
            },
        }
        i += 1;
    }
    let ghost slots = first_slots(n as nat);
    assert(texts(items@) =~= Seq::new(slots.len(), |i: int| slot_reference(slots[i] as nat)));
    join_arguments(&items)
}

/// The first `n` slots, in order.
fn slot_list(n: usize) -> (slots: Vec<usize>)
    ensures
        slots@ == first_slots(n as nat),
{
    let mut slots: Vec<usize> = Vec::new();
    let mut i: usize = 0;
    while i < n
        invariant
            i <= n,
            slots@.len() == i,
            forall|j: int| 0 <= j < i ==> slots@[j] == j,
        decreases n - i,
    {
        slots.push(i);
        i += 1;
    }
    assert(slots@ =~= first_slots(n as nat));
    slots
}

/// The state of one generation pass. A pass owns its registry, its scopes and
/// its sink: nothing is shared with another pass.
pub struct Pass {
    scopes: ScopeStack,
    registry: NameRegistry,
    placeholders: PlaceholderTable,
    sink: Vec<String>,
}

impl View for Pass {
    type V = PassView;

    closed spec fn view(&self) -> PassView {
        PassView {
            frames: self.scopes@,
            entries: self.registry@,
            slots: self.placeholders.count(),
            lines: texts(self.sink@),
        }
    }
}

impl Pass {
    /// The invariant of a pass: its view is well formed, and its slots carry
    /// their display names.
    pub closed spec fn wf(&self) -> bool {
        self@.well_formed() && self.placeholders.wf()
    }

    /// A pass that has done nothing yet, with `slots` placeholder slots registered.
    pub fn new(slots: usize) -> (pass: Pass)
        ensures
            pass.wf(),
            pass@ == PassView::fresh(slots as nat),
    {
        let pass = Pass {
            scopes: ScopeStack::new(),
            registry: NameRegistry::new(),
            placeholders: PlaceholderTable::new(slots),
            sink: Vec::new(),
        };
        assert(pass@.lines =~= Seq::<Seq<char>>::empty());
        pass
    }

    /// A well-formed pass has a well-formed view.
    pub proof fn lemma_wf_view(&self)
        requires
            self.wf(),
        ensures
            self@.well_formed(),
    {
    }

    /// The open scopes.
    pub fn scopes(&self) -> (scopes: &ScopeStack)
        ensures
            scopes@ == self@.frames,
            self.wf() ==> scopes.wf(),
    {
        &self.scopes
    }

    /// The name registry.
    pub fn registry(&self) -> (registry: &NameRegistry)
        ensures
            registry@ == self@.entries,
            self.wf() ==> registry.wf(),
    {
        &self.registry
    }

    /// The lines written so far.
    pub fn lines(&self) -> (lines: &Vec<String>)
        ensures
            texts(lines@) == self@.lines,
    {
        &self.sink
    }

    /// The number of open scopes.
    pub fn depth(&self) -> (n: usize)
        ensures
            n == self@.frames.len(),
    {
        self.scopes.depth()
    }

    /// The qualified path of the innermost open scope.
    pub fn current_path(&self) -> (path: String)
        requires
            self.wf(),
        ensures
            path@ == self@.path(),
    {
        self.scopes.current_path()
    }

    /// A reference to the placeholder slot at position `slot`, which must be
    /// registered with this pass.
    pub fn placeholder(&self, slot: usize) -> (result: Result<Placeholder, GenError>)
        ensures
            slot < self@.slots ==> result == Ok::<Placeholder, GenError>(Placeholder { slot }),
            slot >= self@.slots ==> result == Err::<Placeholder, GenError>(GenError::UnknownPlaceholder),
    {
        self.placeholders.placeholder(slot)
    }

    fn write_line(&mut self, line: String)
        ensures
            final(self)@ == old(self)@.write(line@),
            old(self).wf() ==> final(self).wf(),
    {
        let ghost before = texts(self.sink@);
        self.sink.push(line);
        assert(texts(self.sink@) =~= before.push(line@));
    }

    fn record_decl(&mut self, decl: ForeignDeclaration)
        requires
            old(self).wf(),
        ensures
            final(self).wf(),
            final(self)@ == old(self)@.record(decl@),
    {
        let _ = self.scopes.record(decl);
    }

    /// Writes the header that starts every sink.
    pub fn write_header(&mut self)
        requires
            old(self).wf(),
        ensures
            final(self).wf(),
            final(self)@ == old(self)@.write(header_line()),
    {
        self.write_line(String::from_str("(* This file is generated automatically with ocaml_gen. *)"));
    }

    /// Writes the remark `text` as a line of its own.
    pub fn comment(&mut self, text: &str)
        requires
            old(self).wf(),
        ensures
            final(self).wf(),
            final(self)@ == old(self)@.write(comment_line(text@)),
    {
        let mut line = String::from_str("(** ");
        line.append(text);
        line.append(" *)");
        self.write_line(line);
    }

    /// Enters the scope `name` without writing anything: the way to name the
    /// module that a sink as a whole stands for.
    pub fn enter(&mut self, name: &str) -> (result: Result<(), GenError>)
        requires
            old(self).wf(),
        ensures
            final(self).wf(),
            match old(self)@.enter(name@) {
                Ok(post) => result is Ok && final(self)@ == post,
                Err(e) => result == Err::<(), GenError>(e) && final(self)@ == old(self)@,
            },
    {
        self.scopes.enter(name)
    }

    /// Leaves the innermost scope without writing anything, and hands back its
    /// sealed frame.
    pub fn exit(&mut self) -> (result: Result<ScopeFrame, GenError>)
        requires
            old(self).wf(),
        ensures
            final(self).wf(),
            match old(self)@.exit() {
                Ok(post) => result matches Ok(frame) && frame@ == old(self)@.frames.last() && final(self)@ == post,
                Err(e) => result == Err::<ScopeFrame, GenError>(e) && final(self)@ == old(self)@,
            },
    {
        self.scopes.exit()
    }

    /// Opens the nested module `name`: records the opening in the enclosing
    /// scope, enters the module and writes its opening line.
    pub fn open_module(&mut self, name: &str) -> (result: Result<(), GenError>)
        requires
            old(self).wf(),
        ensures
            final(self).wf(),
            match old(self)@.open_module(name@) {
                Ok(post) => result is Ok && final(self)@ == post,
                Err(e) => result == Err::<(), GenError>(e) && final(self)@ == old(self)@,
            },
    {
        if !is_well_formed_name(name) {
            return Err(GenError::MalformedName);
        }
        let opening = ForeignDeclaration {
            kind: DeclKind::ModuleOpen,
            path: self.scopes.current_path(),
            name: String::from_str(name),
            placeholders: Vec::new(),
        };
        self.record_decl(opening);
        let _ = self.scopes.enter(name);
        let path = self.scopes.current_path();
        let mut line = String::from_str("module ");
        line.append(path.as_str());
        line.append(" = struct");
        self.write_line(line);
        Ok(())
    }

    /// Closes the innermost module: leaves it, records the closing in the
    /// enclosing scope and writes the closing line. Hands back the sealed frame.
    pub fn close_module(&mut self) -> (result: Result<ScopeFrame, GenError>)
        requires
            old(self).wf(),
        ensures
            final(self).wf(),
            match old(self)@.close_module() {
                Ok(post) => result matches Ok(frame) && frame@ == old(self)@.frames.last() && final(self)@ == post,
                Err(e) => result == Err::<ScopeFrame, GenError>(e) && final(self)@ == old(self)@,
            },
    {
        match self.scopes.exit() {
            Err(e) => Err(e),
            Ok(frame) => {
                let closing = ForeignDeclaration {
                    kind: DeclKind::ModuleClose,
                    path: self.scopes.current_path(),
                    name: String::from_str(frame.name()),
                    placeholders: Vec::new(),
                };
                self.record_decl(closing);
                self.write_line(String::from_str("end"));
                Ok(frame)
            },
        }
    }

    fn check(&self, path: &str, name: &str, slots_needed: usize) -> (result: Result<(), GenError>)
        requires
            self.wf(),
            path@ == self@.path(),
        ensures
            match self@.refusal(name@, slots_needed as nat) {
                Some(e) => result == Err::<(), GenError>(e),
                None => result is Ok,
            },
    {
        if self.scopes.is_empty() {
            Err(GenError::ScopeUnderflow)
        } else if !is_well_formed_name(name) {
            Err(GenError::MalformedName)
        } else if slots_needed > self.placeholders.len() {
            Err(GenError::UnknownPlaceholder)
        } else if self.registry.contains(path, name) {
            Err(GenError::DuplicateDeclaration)
        } else {
            Ok(())
        }
    }

    /// Declares the native type `native`, of `arity` generic parameters, under the
    /// foreign name `name` in the innermost open scope. Every check comes before
    /// the first change: on an error nothing is bound, recorded or written.
    pub fn declare_type(&mut self, native: &str, name: &str, arity: usize) -> (result: Result<(), GenError>)
        requires
            old(self).wf(),
        ensures
            final(self).wf(),
            match old(self)@.declare_type(native@, name@, arity as nat) {
                Ok(post) => result is Ok && final(self)@ == post,
                Err(e) => result == Err::<(), GenError>(e) && final(self)@ == old(self)@,
            },
    {
        let path = self.scopes.current_path();
        match self.check(path.as_str(), name, arity) {
            Err(e) => {
                return Err(e);
            },
            Ok(_) => {},
        }
        let mut line = String::from_str("type ");
        let params = parameter_text(&self.placeholders, arity);
        line.append(params.as_str());
        let full = qualified(path.as_str(), name);
        line.append(full.as_str());
        let decl = ForeignDeclaration {
            kind: DeclKind::Type,
            path: path.clone(),
            name: String::from_str(name),
            placeholders: slot_list(arity),
        };
        let _ = self.registry.declare_type(path.as_str(), native, name, arity);
        self.record_decl(decl);
        self.write_line(line);
        Ok(())
    }

    /// Declares the native function `native` under the foreign name `name` in the
    /// innermost open scope. Functions and types share one namespace.
    pub fn declare_function(&mut self, native: &str, name: &str) -> (result: Result<(), GenError>)
        requires
            old(self).wf(),
        ensures
            final(self).wf(),
            match old(self)@.declare_function(native@, name@) {
                Ok(post) => result is Ok && final(self)@ == post,
                Err(e) => result == Err::<(), GenError>(e) && final(self)@ == old(self)@,
            },
    {
        let path = self.scopes.current_path();
        match self.check(path.as_str(), name, 0) {
            Err(e) => {
                return Err(e);
            },
            Ok(_) => {},
        }
        let mut line = String::from_str("external ");
        let full = qualified(path.as_str(), name);
        line.append(full.as_str());
        line.append(" = \"");
        line.append(native);
        line.append("\"");
        let decl = ForeignDeclaration {
            kind: DeclKind::Function,
            path: path.clone(),
            name: String::from_str(name),
            placeholders: Vec::new(),
        };
        let _ = self.registry.declare_function(path.as_str(), native, name);
        self.record_decl(decl);
        self.write_line(line);
        Ok(())
    }

    /// Declares the foreign name `name` in the innermost open scope as a synonym
    /// for the type expression `target`. Every native type in `target` must have
    /// been declared in this pass, and every slot registered with it.
    pub fn declare_alias(&mut self, name: &str, target: &TypeExpr) -> (result: Result<(), GenError>)
        requires
            old(self).wf(),
        ensures
            final(self).wf(),
            match old(self)@.declare_alias(name@, target@) {
                Ok(post) => result is Ok && final(self)@ == post,
                Err(e) => result == Err::<(), GenError>(e) && final(self)@ == old(self)@,
            },
    {
        if self.scopes.is_empty() {
            return Err(GenError::ScopeUnderflow);
        }
        if !is_well_formed_name(name) {
            return Err(GenError::MalformedName);
        }
        let bound = match target.bound_within(self.placeholders.len()) {
            Err(e) => {
                return Err(e);
            },
            Ok(bound) => bound,
        };
        let path = self.scopes.current_path();
        if self.registry.contains(path.as_str(), name) {
            return Err(GenError::DuplicateDeclaration);
        }
        match target {
            TypeExpr::Slot(_) => Err(GenError::UnknownTarget),
            TypeExpr::Apply { native, args } => {
                proof {
                    target.lemma_view_of_apply();
                }
                let rendered = match target.render(&self.registry, &self.placeholders) {
                    Err(e) => {
                        return Err(e);
                    },
                    Ok(rendered) => rendered,
                };
                let mut line = String::from_str("type ");
                let params = parameter_text(&self.placeholders, bound);
                line.append(params.as_str());
                let full = qualified(path.as_str(), name);
                line.append(full.as_str());
                line.append(" = ");
                line.append(rendered.as_str());
                let decl = ForeignDeclaration {
                    kind: DeclKind::TypeAlias,
                    path: path.clone(),
                    name: String::from_str(name),
                    placeholders: slot_list(bound),
                };
                let _ = self.registry.declare_alias(path.as_str(), name, native.as_str());
                self.record_decl(decl);
                self.write_line(line);
                Ok(())
            },
        }
    }

    /// Takes over a type that is declared outside this pass, in the module at
    /// `path`: the binding is registered, so that synonyms of this pass may refer
    /// to the type, and nothing is written.
    pub fn import_type(&mut self, path: &str, native: &str, name: &str, arity: usize) -> (result: Result<
        (),
        GenError,
    >)
        requires
            old(self).wf(),
        ensures
            final(self).wf(),
            match old(self)@.import_type(path@, native@, name@, arity as nat) {
                Ok(post) => result is Ok && final(self)@ == post,
                Err(e) => result == Err::<(), GenError>(e) && final(self)@ == old(self)@,
            },
    {
        self.registry.declare_type(path, native, name, arity)
    }

    /// Ends the pass and hands out the lines of its sink. A pass with a scope
    /// still open fails, and the error names that scope by its qualified path.
    pub fn finish(self) -> (result: Result<Vec<String>, GenError>)
        requires
            self.wf(),
        ensures
            self@.frames.len() == 0 ==> (result matches Ok(lines) && texts(lines@) == self@.lines),
            self@.frames.len() > 0 ==> (result matches Err(GenError::UnbalancedScope(path)) && path@
                == self@.path()),
    {
        match self.scopes.finish() {
            Ok(_) => Ok(self.sink),
            Err(e) => Err(e),
        }
    }
}

} // verus!
