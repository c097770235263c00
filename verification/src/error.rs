//! Error taxonomy of the compositor core.

use vstd::prelude::*;

verus! {

/// Why a compositor operation could not be carried out.
///
/// All of these are recoverable: the operation that hit the error is abandoned
/// and the rest of the state is left consistent.
#[derive(Clone, Copy, Debug, PartialEq, Eq, Structural)]
pub enum CompositorError {
    /// A weak handle's backing resource was destroyed before the access.
    ResourceGone,
    /// An operation assumed a protocol state (for example, a toplevel surface)
    /// that does not hold for the resource.
    ProtocolStateMismatch,
    /// A focus or action transition referenced a view that is absent from the
    /// tracked view list: a caller bug, reported rather than tolerated.
    InvariantViolation,
}

impl CompositorError {
    /// A short description, usable by an embedding for diagnostics.
    pub fn describe(&self) -> (r: &'static str)
        ensures
            r@ == self.describe_spec(),
    {
        match self {
            CompositorError::ResourceGone => "resource gone",
            CompositorError::ProtocolStateMismatch => "protocol state mismatch",
            CompositorError::InvariantViolation => "invariant violation",
        }
    }

    pub open spec fn describe_spec(self) -> Seq<char> {
        match self {
            CompositorError::ResourceGone => "resource gone"@,
            CompositorError::ProtocolStateMismatch => "protocol state mismatch"@,
            CompositorError::InvariantViolation => "invariant violation"@,
        }
    }
}

} // verus!
