//! The error kinds of the subsystem.

use vstd::prelude::*;

verus! {

/// A failure of the runtime API provider, as the diagnostic text it gave.
#[derive(Clone, Debug, PartialEq, Eq)]
pub struct RuntimeApiError(pub String);

impl RuntimeApiError {
    /// The diagnostic text of the failure.
    pub fn message(&self) -> (text: &String)
        ensures
            *text == self.0,
    {
        &self.0
    }
}

impl From<String> for RuntimeApiError {
    fn from(text: String) -> (error: RuntimeApiError) {
        RuntimeApiError(text)
    }
}

impl vstd::std_specs::convert::FromSpecImpl<String> for RuntimeApiError {
    open spec fn obeys_from_spec() -> bool {
        true
    }

    open spec fn from_spec(text: String) -> RuntimeApiError {
        RuntimeApiError(text)
    }
}

/// Why the message loop ended without being asked to.
#[derive(Clone, Copy, Debug, PartialEq, Eq, Structural)]
pub enum SubsystemError {
    /// The mailbox has nothing left and nothing can arrive any more.
    MailboxClosed,
}

} // verus!
