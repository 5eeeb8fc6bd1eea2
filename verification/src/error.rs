//! The ways in which a generation pass can fail.
use vstd::prelude::*;
use vstd::string::StringExecFns;

verus! {

/// Every error is fatal to the pass that raised it.
#[derive(Debug, Clone, PartialEq, Eq)]
pub enum GenError {
    /// The same qualified name was declared twice in one pass.
    DuplicateDeclaration,
    /// An alias refers to a native type that the pass has not declared.
    UnknownTarget,
    /// A generic slot was referenced that the pass has not registered.
    UnknownPlaceholder,
    /// A scope was left, or a declaration made, while no scope was open.
    ScopeUnderflow,
    /// The pass ended with scopes still open; holds the qualified path of the innermost one.
    UnbalancedScope(String),
    /// A destination could not be opened for writing. The library itself writes to
    /// memory only, so this is raised by the program that owns the destinations.
    SinkUnavailable,
    /// A module or foreign name is empty or holds a path separator.
    MalformedName,
}

impl GenError {
    /// The text that describes an error to a reader.
    pub open spec fn message_text(self) -> Seq<char> {
        match self {
            GenError::DuplicateDeclaration => "duplicate declaration"@,
            GenError::UnknownTarget => "unknown target"@,
            GenError::UnknownPlaceholder => "unknown placeholder"@,
            GenError::ScopeUnderflow => "scope underflow"@,
            GenError::UnbalancedScope(path) => "unbalanced scope: "@ + path@,
            GenError::SinkUnavailable => "sink unavailable"@,
            GenError::MalformedName => "malformed name"@,
        }
    }

    /// Renders the error for a reader.
    pub fn message(&self) -> (text: String)
        ensures
            text@ == self.message_text(),
    {
        match self {
            GenError::DuplicateDeclaration => String::from_str("duplicate declaration"),
            GenError::UnknownTarget => String::from_str("unknown target"),
            GenError::UnknownPlaceholder => String::from_str("unknown placeholder"),
            GenError::ScopeUnderflow => String::from_str("scope underflow"),
            GenError::UnbalancedScope(path) => {
                let mut text = String::from_str("unbalanced scope: ");
                text.append(path.as_str());
                text
            },
            GenError::SinkUnavailable => String::from_str("sink unavailable"),
            GenError::MalformedName => String::from_str("malformed name"),
        }
    }
}

} // verus!
