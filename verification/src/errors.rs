//! The error surface of the job lifecycle and the settlement engine.

use vstd::prelude::*;

verus! {

/// Why an operation was rejected. Every failure is a synchronous rejection of
/// the single operation in progress: the caller sees the kind, and neither the
/// job record nor any balance changes.
#[derive(Clone, Copy, Debug, PartialEq, Eq, Structural)]
pub enum ErrorCode {
    /// The job is not in a status accepted by the invoked operation.
    InvalidStatus,
    /// The platform fee is above 10000 basis points.
    InvalidFeeBps,
    /// The escrowed reward would be zero.
    InvalidReward,
    /// A settlement was requested for more than the escrowed reward.
    InvalidPayout,
    /// An arithmetic step of the settlement would overflow or underflow.
    MathOverflow,
    /// The escrow holding carries less than the reward to be settled.
    InsufficientVaultBalance,
    /// Approval was attempted although no result was ever submitted.
    SubmissionMissing,
    /// Escalation was attempted although the deadline has not passed.
    DeadlineNotReached,
    /// The caller is not the identity the operation demands.
    UnauthorizedActor,
    /// A nonzero deadline does not lie strictly in the future.
    InvalidDeadline,
    /// The audit note of a dispute resolution is over 160 bytes.
    ReasonTooLong,
}

} // verus!
