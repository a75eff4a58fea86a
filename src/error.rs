//! The failures that an oracle operation can report.

use vstd::prelude::*;

verus! {

/// Why an operation was rejected. A rejected operation changes nothing.
#[derive(Clone, Copy, Debug, PartialEq, Eq, Structural)]
pub enum OracleError {
    /// The caller may not perform this operation on this proposal.
    Unauthorized,
    /// The timing is wrong for the operation: the liveness window is already
    /// over for a dispute, still open for a resolution, or the proposal is not
    /// yet resolved for a withdrawal.
    LivenessActive,
    /// The proposal has already been resolved.
    AlreadyResolved,
    /// The caller's balance does not cover the bond, or there is no bond left
    /// to claim.
    InsufficientBond,
    /// The event is unknown or malformed.
    InvalidEvent,
    /// The proposal does not belong to the given event.
    ProposalNotFound,
    /// The dispute window has closed.
    DisputeExpired,
    /// The evidence digest is malformed.
    InvalidEvidence,
    /// A counter or timestamp would leave its representable range.
    ArithmeticOverflow,
    /// A proposal with this identifier already exists.
    IdExists,
    /// The event's resolution type is not supported, or an undisputed
    /// proposal was asked to resolve to another outcome than the proposed one.
    ResolutionMismatch,
    /// The proposal has already been disputed.
    AlreadyDisputed,
}

} // verus!
