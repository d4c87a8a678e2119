//! The value layer's own error type: a plain message string.

use vstd::prelude::*;

verus! {

/// Error raised by value-layer operations.
#[derive(Debug, Clone, PartialEq, Eq)]
pub struct Error(pub String);

impl Error {
    /// Create an error carrying the given message.
    pub fn new(msg: String) -> (e: Error)
        ensures
            e == Error(msg),
    {
        Error(msg)
    }

    /// Get the error message.
    pub fn message(&self) -> (m: &str)
        ensures
            m@ == self.0@,
    {
        self.0.as_str()
    }
}

} // verus!
