//! The generic placeholder table: a pool of numbered type variables that
//! declarations of generic entities refer to by position.
use crate::error::GenError;
use crate::text::decimal;
use crate::text::decimal_text;
use vstd::prelude::*;
use vstd::string::StringExecFns;

verus! {

/// The display name of the slot at position `slot`: `T1` for the first, `T2` for the second.
pub open spec fn slot_name(slot: nat) -> Seq<char> {
    "T"@ + decimal(slot + 1)
}

/// How a declaration refers to the slot at position `slot`: its display name
/// behind the mark of a type variable.
pub open spec fn slot_reference(slot: nat) -> Seq<char> {
    "'"@ + slot_name(slot)
}

/// A reference to a placeholder slot, for use in a generic-argument list.
#[derive(Debug, Clone, Copy, PartialEq, Eq)]
pub struct Placeholder {
    /// The position of the slot in the table.
    pub slot: usize,
}

/// The slots that one pass has registered. They live in a namespace of their
/// own: no name in the registry can collide with one.
pub struct PlaceholderTable {
    names: Vec<String>,
}

impl PlaceholderTable {
    /// The number of registered slots.
    pub closed spec fn count(&self) -> nat {
        self.names@.len()
    }

    /// Every slot carries the display name of its position.
    pub closed spec fn wf(&self) -> bool {
        forall|i: int| 0 <= i < self.names@.len() ==> (#[trigger] self.names@[i])@ == slot_name(i as nat)
    }

    /// Registers `count` slots, under the display names `T1`, `T2`, and so on.
    pub fn new(count: usize) -> (table: PlaceholderTable)
        ensures
            table.wf(),
            table.count() == count,
    {
        let mut names: Vec<String> = Vec::new();
        let mut i: usize = 0;
        while i < count
            invariant
                i <= count,
                names@.len() == i,
                forall|j: int| 0 <= j < i ==> (#[trigger] names@[j])@ == slot_name(j as nat),
            decreases count - i,
        {
            let mut name = String::from_str("T");
            let number = decimal_text(i + 1);
            name.append(number.as_str());
            names.push(name);
            i += 1;
        }
        PlaceholderTable { names }
    }

    /// The number of registered slots.
    pub fn len(&self) -> (n: usize)
        ensures
            n == self.count(),
    {
        self.names.len()
    }

    /// A reference to the slot at position `slot`, which must be registered.
    pub fn placeholder(&self, slot: usize) -> (result: Result<Placeholder, GenError>)
        ensures
            slot < self.count() ==> result == Ok::<Placeholder, GenError>(Placeholder { slot }),
            slot >= self.count() ==> result == Err::<Placeholder, GenError>(GenError::UnknownPlaceholder),
    {
        if slot < self.names.len() {
            Ok(Placeholder { slot })
        } else {
            Err(GenError::UnknownPlaceholder)
        }
    }

    /// The display name of the slot at position `slot`, which must be registered.
    pub fn display_name(&self, slot: usize) -> (result: Result<String, GenError>)
        requires
            self.wf(),
        ensures
            slot < self.count() ==> (result matches Ok(name) && name@ == slot_name(slot as nat)),
            slot >= self.count() ==> result == Err::<String, GenError>(GenError::UnknownPlaceholder),
    {
        if slot < self.names.len() {
            Ok(self.names[slot].clone())
        } else {
            Err(GenError::UnknownPlaceholder)
        }
    }

    /// The text by which a declaration refers to the slot at position `slot`,
    /// which must be registered.
    pub fn reference(&self, slot: usize) -> (result: Result<String, GenError>)
        requires
            self.wf(),
        ensures
            slot < self.count() ==> (result matches Ok(text) && text@ == slot_reference(slot as nat)),
            slot >= self.count() ==> result == Err::<String, GenError>(GenError::UnknownPlaceholder),
    {
        if slot < self.names.len() {
            let mut text = String::from_str("'");
            text.append(self.names[slot].as_str());
            Ok(text)
        } else {
            Err(GenError::UnknownPlaceholder)
        }
    }
}

} // verus!
