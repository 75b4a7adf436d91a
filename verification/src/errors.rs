//! The ways the engine rejects an input line. All of them are treated as
//! unrecoverable by the surrounding process: it terminates rather than
//! skipping the offending line, but each kind stays observably distinct.
//! A failure to read the input stream itself never reaches the engine and
//! is reported by the surrounding process on its own.

use vstd::prelude::*;

verus! {

/// Why an input line was rejected.
#[derive(Clone, Copy, Debug, PartialEq, Eq, Structural)]
pub enum NodeError {
    /// The line is not valid JSON, or a required field of the resolved
    /// variant is missing or of the wrong shape.
    DecodeFailure,
    /// The body's `type` tag names no known request variant.
    UnsupportedType,
    /// A request other than `init` arrived before the identity handshake.
    PrematureRequest,
}

impl NodeError {
    /// A short diagnostic name for the error, for the process that reports
    /// it on exit.
    pub fn describe(&self) -> (r: &'static str)
        ensures
            self is DecodeFailure ==> r@ == "malformed input line"@,
            self is UnsupportedType ==> r@ == "unsupported message type"@,
            self is PrematureRequest ==> r@ == "request before init"@,
    {
        match self {
            NodeError::DecodeFailure => "malformed input line",
            NodeError::UnsupportedType => "unsupported message type",
            NodeError::PrematureRequest => "request before init",
        }
    }
}

} // verus!
