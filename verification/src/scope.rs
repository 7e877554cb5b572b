//! The execution scope a connection is bound to.
//!
//! A scope is the task and lifetime domain that hosts per-connection
//! serving tasks.  Spawning, shutdown signalling and the registries
//! themselves live with the host; what the protocol logic reads from a
//! scope is which optional facilities it offers: a token registry (for
//! link and rename destinations) and an entry constructor (for creating
//! entries on open-with-create).

use vstd::prelude::*;

verus! {

/// The facilities a connection can ask of its execution scope.
#[derive(Clone, Copy, Debug, PartialEq, Eq, Structural)]
pub struct ExecutionScope {
    /// Whether the scope offers a token registry.  Without one, GetToken,
    /// Link and Rename are unsupported.
    pub has_token_registry: bool,
    /// Whether the scope offers an entry constructor.  Without one, an
    /// open with the create flag of a missing entry is unsupported.
    pub has_entry_constructor: bool,
}

impl ExecutionScope {
    /// A scope with neither facility.
    pub fn new() -> (r: Self)
        ensures
            !r.has_token_registry,
            !r.has_entry_constructor,
    {
        ExecutionScope { has_token_registry: false, has_entry_constructor: false }
    }

    /// The same scope with a token registry.
    pub fn with_token_registry(self) -> (r: Self)
        ensures
            r.has_token_registry,
            r.has_entry_constructor == self.has_entry_constructor,
    {
        ExecutionScope { has_token_registry: true, ..self }
    }

    /// The same scope with an entry constructor.
    pub fn with_entry_constructor(self) -> (r: Self)
        ensures
            r.has_entry_constructor,
            r.has_token_registry == self.has_token_registry,
    {
        ExecutionScope { has_entry_constructor: true, ..self }
    }
}

} // verus!
