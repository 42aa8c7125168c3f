//! The error taxonomy shared by the codec layer and the graph nodes.

use vstd::prelude::*;

verus! {

/// What went wrong. Four kinds cover the whole library:
/// malformed node-local state, a parameter variant a node cannot accept,
/// an operation nothing implements, and a failure surfaced by the native
/// codec layer.
#[derive(Clone, Copy, Debug, PartialEq, Eq, Structural)]
pub enum ErrorKind {
    /// Malformed node-local state, e.g. a null required pointer slot, or a
    /// stream no codec recognizes.
    InvalidArgument,
    /// A node received a parameter variant inconsistent with its type.
    NodeParamsMismatch,
    /// A requested preset or command has no implementation.
    NotImplemented,
    /// The native codec library reported a failure.
    NativeCodecError,
}

/// A failure, carrying its kind.
#[derive(Clone, Copy, Debug, PartialEq, Eq, Structural)]
pub struct FlowError {
    pub kind: ErrorKind,
}

impl FlowError {
    pub fn new(kind: ErrorKind) -> (r: FlowError)
        ensures
            r.kind == kind,
    {
        FlowError { kind }
    }
}

} // verus!
