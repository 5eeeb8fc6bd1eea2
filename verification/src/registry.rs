//! The name registry: every binding of a native entity to a foreign name that a
//! pass has made, in the order in which it was made.
use crate::error::GenError;
use vstd::prelude::*;
use vstd::string::StringExecFns;

verus! {

/// What a binding stands for.
#[derive(Debug, Clone, Copy, PartialEq, Eq)]
pub enum BindingKind {
    /// A type of its own.
    Type,
    /// A synonym for a type that was declared before.
    Alias,
    /// A callable.
    Function,
}

/// One entry of the registry.
#[derive(Debug, Clone, PartialEq, Eq)]
pub struct Binding {
    /// The qualified path of the module that holds the name.
    pub path: String,
    /// The foreign name.
    pub name: String,
    /// The native entity that the name stands for.
    pub native: String,
    /// The number of generic parameters of the native entity.
    pub arity: usize,
    /// Whether the name is a type, a synonym or a function.
    pub kind: BindingKind,
}

/// The mathematical content of a [`Binding`].
pub struct BindingView {
    pub path: Seq<char>,
    pub name: Seq<char>,
    pub native: Seq<char>,
    pub arity: nat,
    pub kind: BindingKind,
}

impl View for Binding {
    type V = BindingView;

    open spec fn view(&self) -> BindingView {
        BindingView {
            path: self.path@,
            name: self.name@,
            native: self.native@,
            arity: self.arity as nat,
            kind: self.kind,
        }
    }
}

impl BindingView {
    /// The entry binds `name` in the module at `path`.
    pub open spec fn has_key(self, path: Seq<char>, name: Seq<char>) -> bool {
        self.path == path && self.name == name
    }

    /// The entry declares the native type `native`.
    pub open spec fn declares(self, native: Seq<char>) -> bool {
        self.kind == BindingKind::Type && self.native == native
    }
}

/// Some entry binds `name` in the module at `path`.
pub open spec fn is_bound(entries: Seq<BindingView>, path: Seq<char>, name: Seq<char>) -> bool {
    exists|i: int| 0 <= i < entries.len() && (#[trigger] entries[i]).has_key(path, name)
}

/// An entry that binds `name` in the module at `path`; the only one, in a well-formed registry.
pub open spec fn binding_of(entries: Seq<BindingView>, path: Seq<char>, name: Seq<char>) -> BindingView {
    entries[choose|i: int| 0 <= i < entries.len() && (#[trigger] entries[i]).has_key(path, name)]
}

/// Entry `i` is the earliest one that declares the native type `native`.
pub open spec fn is_first_declaration(entries: Seq<BindingView>, native: Seq<char>, i: int) -> bool {
    &&& 0 <= i < entries.len()
    &&& entries[i].declares(native)
    &&& forall|j: int| 0 <= j < i ==> !(#[trigger] entries[j]).declares(native)
}

/// Some entry declares the native type `native`.
pub open spec fn is_declared(entries: Seq<BindingView>, native: Seq<char>) -> bool {
    exists|i: int| 0 <= i < entries.len() && (#[trigger] entries[i]).declares(native)
}

/// The earliest entry that declares the native type `native`.
pub open spec fn declaration_of(entries: Seq<BindingView>, native: Seq<char>) -> BindingView {
    entries[choose|i: int| is_first_declaration(entries, native, i)]
}

/// No two entries bind the same name in the same module, and every synonym has
/// the arity of the declaration that it stands for, which precedes it.
pub open spec fn well_formed(entries: Seq<BindingView>) -> bool {
    &&& forall|i: int, j: int|
        0 <= i < j < entries.len() ==> !(#[trigger] entries[j]).has_key(
            (#[trigger] entries[i]).path,
            entries[i].name,
        )
    &&& forall|i: int|
        0 <= i < entries.len() && (#[trigger] entries[i]).kind == BindingKind::Alias ==> {
            &&& is_declared(entries.take(i), entries[i].native)
            &&& entries[i].arity == declaration_of(entries.take(i), entries[i].native).arity
        }
}

/// What declaring a type does to the registry.
pub open spec fn declare_type_spec(
    entries: Seq<BindingView>,
    path: Seq<char>,
    native: Seq<char>,
    name: Seq<char>,
    arity: nat,
) -> Result<Seq<BindingView>, GenError> {
    if is_bound(entries, path, name) {
        Err(GenError::DuplicateDeclaration)
    } else {
        Ok(entries.push(BindingView { path, name, native, arity, kind: BindingKind::Type }))
    }
}

/// What declaring a function does to the registry.
pub open spec fn declare_function_spec(
    entries: Seq<BindingView>,
    path: Seq<char>,
    native: Seq<char>,
    name: Seq<char>,
) -> Result<Seq<BindingView>, GenError> {
    if is_bound(entries, path, name) {
        Err(GenError::DuplicateDeclaration)
    } else {
        Ok(entries.push(BindingView { path, name, native, arity: 0, kind: BindingKind::Function }))
    }
}

/// What declaring a synonym does to the registry.
pub open spec fn declare_alias_spec(
    entries: Seq<BindingView>,
    path: Seq<char>,
    name: Seq<char>,
    target: Seq<char>,
) -> Result<Seq<BindingView>, GenError> {
    if is_bound(entries, path, name) {
        Err(GenError::DuplicateDeclaration)
    } else if !is_declared(entries, target) {
        Err(GenError::UnknownTarget)
    } else {
        Ok(
            entries.push(
                BindingView {
                    path,
                    name,
                    native: target,
                    arity: declaration_of(entries, target).arity,
                    kind: BindingKind::Alias,
                },
            ),
        )
    }
}

/// In a sequence with a declaration of `native`, the earliest one is determined.
pub proof fn lemma_first_declaration_unique(entries: Seq<BindingView>, native: Seq<char>, i: int)
    requires
        is_first_declaration(entries, native, i),
    ensures
        is_declared(entries, native),
        declaration_of(entries, native) == entries[i],
{
    let k = choose|k: int| is_first_declaration(entries, native, k);
    assert(is_first_declaration(entries, native, k));
    if k < i {
        assert(!entries[k].declares(native));
    }
    if i < k {
        assert(!entries[i].declares(native));
    }
}

/// A sequence that declares `native` has an earliest declaration of it.
pub proof fn lemma_first_declaration_exists(entries: Seq<BindingView>, native: Seq<char>) -> (i: int)
    requires
        is_declared(entries, native),
    ensures
        is_first_declaration(entries, native, i),
    decreases entries.len(),
{
    let w = choose|w: int| 0 <= w < entries.len() && (#[trigger] entries[w]).declares(native);
    if exists|j: int| 0 <= j < w && (#[trigger] entries[j]).declares(native) {
        let j = choose|j: int| 0 <= j < w && (#[trigger] entries[j]).declares(native);
        let shorter = entries.take(w);
        assert(shorter[j] == entries[j]);
        let i = lemma_first_declaration_exists(shorter, native);
        assert(entries[i] == shorter[i]);
        assert forall|m: int| 0 <= m < i implies !(#[trigger] entries[m]).declares(native) by {
            assert(shorter[m] == entries[m]);
        }
        i
    } else {
        w
    }
}

/// Appending an entry keeps the earliest declaration of every type that was declared.
pub proof fn lemma_push_keeps_declaration(entries: Seq<BindingView>, added: BindingView, native: Seq<char>)
    requires
        is_declared(entries, native),
    ensures
        is_declared(entries.push(added), native),
        declaration_of(entries.push(added), native) == declaration_of(entries, native),
{
    let i = lemma_first_declaration_exists(entries, native);
    let longer = entries.push(added);
    assert(longer[i] == entries[i]);
    assert forall|m: int| 0 <= m < i implies !(#[trigger] longer[m]).declares(native) by {
        assert(longer[m] == entries[m]);
    }
    lemma_first_declaration_unique(entries, native, i);
    lemma_first_declaration_unique(longer, native, i);
}

/// Appending a binding of a name that was free keeps a registry well formed,
/// provided that a synonym has the arity of its target.
pub proof fn lemma_push_well_formed(entries: Seq<BindingView>, added: BindingView)
    requires
        well_formed(entries),
        !is_bound(entries, added.path, added.name),
        added.kind == BindingKind::Alias ==> is_declared(entries, added.native) && added.arity
            == declaration_of(entries, added.native).arity,
    ensures
        well_formed(entries.push(added)),
{
    let longer = entries.push(added);
    assert forall|i: int, j: int| 0 <= i < j < longer.len() implies !(#[trigger] longer[j]).has_key(
        (#[trigger] longer[i]).path,
        longer[i].name,
    ) by {
        assert(longer[i] == entries[i]);
        if j < entries.len() {
            assert(longer[j] == entries[j]);
        } else {
            if added.has_key(entries[i].path, entries[i].name) {
                assert(entries[i].has_key(added.path, added.name));
            }
        }
    }
    assert forall|i: int|
        0 <= i < longer.len() && (#[trigger] longer[i]).kind == BindingKind::Alias implies {
        &&& is_declared(longer.take(i), longer[i].native)
        &&& longer[i].arity == declaration_of(longer.take(i), longer[i].native).arity
    } by {
        if i < entries.len() {
            assert(longer[i] == entries[i]);
            assert(longer.take(i) =~= entries.take(i));
        } else {
            assert(longer.take(i) =~= entries);
        }
    }
}

/// In a well-formed registry the binding of a name in a module is determined.
pub proof fn lemma_binding_unique(entries: Seq<BindingView>, i: int, path: Seq<char>, name: Seq<char>)
    requires
        well_formed(entries),
        0 <= i < entries.len(),
        entries[i].has_key(path, name),
    ensures
        is_bound(entries, path, name),
        binding_of(entries, path, name) == entries[i],
{
    let k = choose|k: int| 0 <= k < entries.len() && (#[trigger] entries[k]).has_key(path, name);
    if k < i {
        assert(!entries[i].has_key(entries[k].path, entries[k].name));
    }
    if i < k {
        assert(!entries[k].has_key(entries[i].path, entries[i].name));
    }
}

/// The registry of one generation pass.
pub struct NameRegistry {
    entries: Vec<Binding>,
}

impl View for NameRegistry {
    type V = Seq<BindingView>;

    closed spec fn view(&self) -> Seq<BindingView> {
        self.entries@.map_values(|b: Binding| b@)
    }
}

impl NameRegistry {
    /// The invariant of the registry: see [`well_formed`].
    pub open spec fn wf(&self) -> bool {
        well_formed(self@)
    }

    /// A registry without entries.
    pub fn new() -> (registry: NameRegistry)
        ensures
            registry.wf(),
            registry@ == Seq::<BindingView>::empty(),
    {
        let registry = NameRegistry { entries: Vec::new() };
        assert(registry@ =~= Seq::<BindingView>::empty());
        registry
    }

    /// The number of bindings made so far.
    pub fn len(&self) -> (n: usize)
        ensures
            n == self@.len(),
    {
        self.entries.len()
    }

    /// The binding at position `i`, in the order of declaration.
    pub fn get(&self, i: usize) -> (binding: Option<&Binding>)
        ensures
            i < self@.len() ==> (binding matches Some(b) && b@ == self@[i as int]),
            i >= self@.len() ==> binding is None,
    {
        if i < self.entries.len() {
            Some(&self.entries[i])
        } else {
            None
        }
    }

    fn position(&self, path: &String, name: &String) -> (found: Option<usize>)
        ensures
            found matches Some(i) ==> i < self@.len() && self@[i as int].has_key(path@, name@),
            found is None ==> !is_bound(self@, path@, name@),
    {
        let mut i: usize = 0;
        while i < self.entries.len()
            invariant
                i <= self.entries.len(),
                forall|j: int| 0 <= j < i ==> !(#[trigger] self@[j]).has_key(path@, name@),
            decreases self.entries.len() - i,
        {
            if self.entries[i].path == *path && self.entries[i].name == *name {
                return Some(i);
            }
            i += 1;
        }
        None
    }

    fn declaration(&self, native: &String) -> (found: Option<usize>)
        ensures
            found matches Some(i) ==> is_first_declaration(self@, native@, i as int),
            found is None ==> !is_declared(self@, native@),
    {
        let mut i: usize = 0;
        while i < self.entries.len()
            invariant
                i <= self.entries.len(),
                forall|j: int| 0 <= j < i ==> !(#[trigger] self@[j]).declares(native@),
            decreases self.entries.len() - i,
        {
            let declares = match self.entries[i].kind {
                BindingKind::Type => self.entries[i].native == *native,
                _ => false,
            };
            if declares {
                return Some(i);
            }
            i += 1;
        }
        None
    }

    /// Tells whether `name` is bound in the module at `path`.
    pub fn contains(&self, path: &str, name: &str) -> (bound: bool)
        ensures
            bound == is_bound(self@, path@, name@),
    {
        let path = String::from_str(path);
        let name = String::from_str(name);
        self.position(&path, &name).is_some()
    }

    /// The arity recorded for `name` in the module at `path`, if the name is bound.
    pub fn arity(&self, path: &str, name: &str) -> (arity: Option<usize>)
        requires
            self.wf(),
        ensures
            arity is Some <==> is_bound(self@, path@, name@),
            arity matches Some(n) ==> n == binding_of(self@, path@, name@).arity,
    {
        let path = String::from_str(path);
        let name = String::from_str(name);
        match self.position(&path, &name) {
            Some(i) => {
                proof {
                    lemma_binding_unique(self@, i as int, path@, name@);
                }
                Some(self.entries[i].arity)
            },
            None => None,
        }
    }

    /// Tells whether the pass has declared the native type `native`.
    pub fn declares(&self, native: &str) -> (declared: bool)
        ensures
            declared == is_declared(self@, native@),
    {
        let native = String::from_str(native);
        self.declaration(&native).is_some()
    }

    /// The declaration of the native type `native`, if the pass has made one.
    pub fn declaration_of(&self, native: &str) -> (binding: Option<&Binding>)
        ensures
            binding is Some <==> is_declared(self@, native@),
            binding matches Some(b) ==> b@ == declaration_of(self@, native@),
    {
        let native = String::from_str(native);
        match self.declaration(&native) {
            Some(i) => {
                proof {
                    lemma_first_declaration_unique(self@, native@, i as int);
                }
                Some(&self.entries[i])
            },
            None => None,
        }
    }

    fn append(&mut self, binding: Binding)
        ensures
            final(self)@ == old(self)@.push(binding@),
    {
        self.entries.push(binding);
        assert(self@ =~= old(self)@.push(binding@));
    }

    /// Binds the foreign name `name` in the module at `path` to a type of its own.
    /// A name that is already bound there is refused, and the registry stays as it was.
    pub fn declare_type(&mut self, path: &str, native: &str, name: &str, arity: usize) -> (result: Result<
        (),
        GenError,
    >)
        requires
            old(self).wf(),
        ensures
            final(self).wf(),
            match declare_type_spec(old(self)@, path@, native@, name@, arity as nat) {
                Ok(entries) => result is Ok && final(self)@ == entries,
                Err(e) => result == Err::<(), GenError>(e) && final(self)@ == old(self)@,
            },
    {
        let binding = Binding {
            path: String::from_str(path),
            name: String::from_str(name),
            native: String::from_str(native),
            arity,
            kind: BindingKind::Type,
        };
        if self.position(&binding.path, &binding.name).is_some() {
            return Err(GenError::DuplicateDeclaration);
        }
        proof {
            lemma_push_well_formed(self@, binding@);
        }
        self.append(binding);
        Ok(())
    }

    /// Binds the foreign name `name` in the module at `path` to a callable. Functions
    /// and types share one namespace.
    pub fn declare_function(&mut self, path: &str, native: &str, name: &str) -> (result: Result<
        (),
        GenError,
    >)
        requires
            old(self).wf(),
        ensures
            final(self).wf(),
            match declare_function_spec(old(self)@, path@, native@, name@) {
                Ok(entries) => result is Ok && final(self)@ == entries,
                Err(e) => result == Err::<(), GenError>(e) && final(self)@ == old(self)@,
            },
    {
        let binding = Binding {
            path: String::from_str(path),
            name: String::from_str(name),
            native: String::from_str(native),
            arity: 0,
            kind: BindingKind::Function,
        };
        if self.position(&binding.path, &binding.name).is_some() {
            return Err(GenError::DuplicateDeclaration);
        }
        proof {
            lemma_push_well_formed(self@, binding@);
        }
        self.append(binding);
        Ok(())
    }

    /// Binds the foreign name `name` in the module at `path` as a synonym for the
    /// native type `target`, which the pass must have declared. The synonym takes
    /// the arity of that declaration.
    pub fn declare_alias(&mut self, path: &str, name: &str, target: &str) -> (result: Result<(), GenError>)
        requires
            old(self).wf(),
        ensures
            final(self).wf(),
            match declare_alias_spec(old(self)@, path@, name@, target@) {
                Ok(entries) => result is Ok && final(self)@ == entries,
                Err(e) => result == Err::<(), GenError>(e) && final(self)@ == old(self)@,
            },
    {
        let path = String::from_str(path);
        let name = String::from_str(name);
        let native = String::from_str(target);
        if self.position(&path, &name).is_some() {
            return Err(GenError::DuplicateDeclaration);
        }
        match self.declaration(&native) {
            None => Err(GenError::UnknownTarget),
            Some(i) => {
                proof {
                    lemma_first_declaration_unique(self@, native@, i as int);
                }
                let binding = Binding { path, name, native, arity: self.entries[i].arity, kind: BindingKind::Alias };
                proof {
                    lemma_push_well_formed(self@, binding@);
                }
                self.append(binding);
                Ok(())
            },
        }
    }
}

} // verus!
