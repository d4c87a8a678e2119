//! Closed error taxonomy for runtime operations, with best-effort
//! classification of foreign exception messages.
//!
//! Every variant carries a human-readable message and nothing else: an
//! error never holds a live handle into the engine heap.

use vstd::prelude::*;
use crate::text::spec_contains;
use crate::text::str_contains;

verus! {

/// Error taxonomy for JavaScript runtime operations.
#[derive(Debug, Clone, PartialEq, Eq)]
pub enum Error {
    /// JavaScript evaluation error: a syntax error during direct
    /// evaluation, or any thrown JS exception during execution.
    EvaluationError(String),
    /// Failure while compiling source to bytecode.
    CompilationError(String),
    /// Invalid bytecode format or corrupted bytecode.
    InvalidBytecode(String),
    /// Failure while preparing source for repeated execution.
    PreparationError(String),
    /// Runtime creation or configuration error.
    RuntimeError(String),
    /// Any other failure reported by the underlying engine.
    InternalError(String),
}

/// A foreign message that indicates a JavaScript-level failure: a thrown
/// exception or a parse/compile failure.
pub open spec fn spec_is_evaluation_pattern(m: Seq<char>) -> bool {
    spec_contains(m, "JSError"@) || spec_contains(m, "Compiling JS failed"@) || spec_contains(
        m,
        "compilation"@,
    ) || spec_contains(m, "Failed to compile"@) || spec_contains(m, "expected"@)
}

/// A foreign message that indicates a bytecode-format failure.
pub open spec fn spec_is_bytecode_pattern(m: Seq<char>) -> bool {
    spec_contains(m, "bytecode"@) || spec_contains(m, "Invalid bytecode"@)
}

impl Error {
    /// The message carried by this error, whatever the variant.
    pub open spec fn spec_message(self) -> Seq<char> {
        match self {
            Error::EvaluationError(m) => m@,
            Error::CompilationError(m) => m@,
            Error::InvalidBytecode(m) => m@,
            Error::PreparationError(m) => m@,
            Error::RuntimeError(m) => m@,
            Error::InternalError(m) => m@,
        }
    }

    /// Create an evaluation error.
    pub fn evaluation(msg: String) -> (e: Error)
        ensures
            e == Error::EvaluationError(msg),
    {
        Error::EvaluationError(msg)
    }

    /// Create a compilation error.
    pub fn compilation(msg: String) -> (e: Error)
        ensures
            e == Error::CompilationError(msg),
    {
        Error::CompilationError(msg)
    }

    /// Create an invalid-bytecode error.
    pub fn invalid_bytecode(msg: String) -> (e: Error)
        ensures
            e == Error::InvalidBytecode(msg),
    {
        Error::InvalidBytecode(msg)
    }

    /// Create a preparation error.
    pub fn preparation(msg: String) -> (e: Error)
        ensures
            e == Error::PreparationError(msg),
    {
        Error::PreparationError(msg)
    }

    /// Create a runtime error.
    pub fn runtime(msg: String) -> (e: Error)
        ensures
            e == Error::RuntimeError(msg),
    {
        Error::RuntimeError(msg)
    }

    /// Create an internal error.
    pub fn internal(msg: String) -> (e: Error)
        ensures
            e == Error::InternalError(msg),
    {
        Error::InternalError(msg)
    }

    /// Check whether the error message contains a substring.
    pub fn contains(&self, needle: &str) -> (r: bool)
        ensures
            r == spec_contains(self.spec_message(), needle@),
    {
        match self {
            Error::EvaluationError(msg)
            | Error::CompilationError(msg)
            | Error::InvalidBytecode(msg)
            | Error::PreparationError(msg)
            | Error::RuntimeError(msg)
            | Error::InternalError(msg) => str_contains(msg.as_str(), needle),
        }
    }

    /// Get the error message.
    pub fn message(&self) -> (m: &str)
        ensures
            m@ == self.spec_message(),
    {
        match self {
            Error::EvaluationError(msg)
            | Error::CompilationError(msg)
            | Error::InvalidBytecode(msg)
            | Error::PreparationError(msg)
            | Error::RuntimeError(msg)
            | Error::InternalError(msg) => msg.as_str(),
        }
    }

    /// The variant-specific prefix followed by the message, as a single
    /// displayable line.
    pub open spec fn spec_display(self) -> Seq<char> {
        match self {
            Error::EvaluationError(m) => "JavaScript evaluation error: "@ + m@,
            Error::CompilationError(m) => "JavaScript compilation error: "@ + m@,
            Error::InvalidBytecode(m) => "Invalid bytecode: "@ + m@,
            Error::PreparationError(m) => "JavaScript preparation error: "@ + m@,
            Error::RuntimeError(m) => "Runtime error: "@ + m@,
            Error::InternalError(m) => "Internal error: "@ + m@,
        }
    }

    /// Render the error as a single line with a variant-specific prefix.
    pub fn display_string(&self) -> (s: String)
        ensures
            s@ == self.spec_display(),
    {
        match self {
            Error::EvaluationError(msg) => {
                let mut s = "JavaScript evaluation error: ".to_owned();
                s.append(msg.as_str());
                s
            },
            Error::CompilationError(msg) => {
                let mut s = "JavaScript compilation error: ".to_owned();
                s.append(msg.as_str());
                s
            },
            Error::InvalidBytecode(msg) => {
                let mut s = "Invalid bytecode: ".to_owned();
                s.append(msg.as_str());
                s
            },
            Error::PreparationError(msg) => {
                let mut s = "JavaScript preparation error: ".to_owned();
                s.append(msg.as_str());
                s
            },
            Error::RuntimeError(msg) => {
                let mut s = "Runtime error: ".to_owned();
                s.append(msg.as_str());
                s
            },
            Error::InternalError(msg) => {
                let mut s = "Internal error: ".to_owned();
                s.append(msg.as_str());
                s
            },
        }
    }

    /// Translate the outcome of compiling source to bytecode: success
    /// passes through, and any foreign failure message becomes a
    /// `CompilationError` carrying that message.
    pub fn compilation_outcome<T>(raw: Result<T, String>) -> (r: Result<T, Error>)
        ensures
            raw matches Ok(v) ==> r matches Ok(w) && w == v,
            raw matches Err(m) ==> r matches Err(e) && e == Error::CompilationError(m),
    {
        match raw {
            Ok(v) => Ok(v),
            Err(m) => Err(Error::CompilationError(m)),
        }
    }

    /// Translate the outcome of preparing source for repeated
    /// execution: success passes through, and any foreign failure
    /// message becomes a `PreparationError` carrying that message.
    /// Preparation failures are always syntax or static errors, so they
    /// never classify as evaluation errors.
    pub fn preparation_outcome<T>(raw: Result<T, String>) -> (r: Result<T, Error>)
        ensures
            raw matches Ok(v) ==> r matches Ok(w) && w == v,
            raw matches Err(m) ==> r matches Err(e) && e == Error::PreparationError(m),
    {
        match raw {
            Ok(v) => Ok(v),
            Err(m) => Err(Error::PreparationError(m)),
        }
    }

    /// Classify a foreign exception message into the taxonomy.
    ///
    /// The underlying engine reports every failure as an exception whose
    /// message is the only classification signal, so this is best-effort
    /// substring matching; it is kept in one place so the patterns can be
    /// revisited without touching call sites.
    pub fn from_exception_message(msg: String) -> (e: Error)
        ensures
            e.spec_message() == msg@,
            e is EvaluationError <==> spec_is_evaluation_pattern(msg@),
            e is InvalidBytecode <==> !spec_is_evaluation_pattern(msg@)
                && spec_is_bytecode_pattern(msg@),
            e is InternalError <==> !spec_is_evaluation_pattern(msg@)
                && !spec_is_bytecode_pattern(msg@),
    {
        if str_contains(msg.as_str(), "JSError") {
            Error::EvaluationError(msg)
        } else if str_contains(msg.as_str(), "Compiling JS failed") || str_contains(
            msg.as_str(),
            "compilation",
        ) || str_contains(msg.as_str(), "Failed to compile") || str_contains(
            msg.as_str(),
            "expected",
        ) {
            Error::EvaluationError(msg)
        } else if str_contains(msg.as_str(), "bytecode") || str_contains(
            msg.as_str(),
            "Invalid bytecode",
        ) {
            Error::InvalidBytecode(msg)
        } else {
            Error::InternalError(msg)
        }
    }
}

} // verus!
