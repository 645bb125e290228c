//! The failures of a call.
use vstd::prelude::*;

verus! {

/// How a call failed. Transport failures and non-success statuses are not
/// told apart, nor are the causes of a body that does not decode.
#[derive(Clone, Copy, Debug, PartialEq, Eq, Structural)]
pub enum ErrorKind {
    /// The connection failed or the status was not a success.
    Transport,
    /// The body does not match the expected shape.
    Deserialization,
    /// A handle was asked of a builder lacking a token, a URL or its seal.
    IncompleteBuilder,
}

/// A failure, with the kind and a description.
#[derive(Clone, Debug)]
pub struct Error {
    pub kind: ErrorKind,
    pub message: String,
}

impl Error {
    pub fn new(kind: ErrorKind, message: String) -> (r: Error)
        ensures
            r.kind == kind,
            r.message@ == message@,
    {
        Error { kind, message }
    }
}

} // verus!
