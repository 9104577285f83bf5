//! The two persistent records of the core: the configuration singleton and
//! the per-engagement job record, together with the job's status machine.

use vstd::prelude::*;

use crate::identity::Identity;

verus! {

/// Upper bound of the platform fee, in basis points (100%).
pub const MAX_FEE_BPS: u16 = 10000;

/// Longest accepted audit note of a dispute resolution, in bytes.
pub const MAX_REASON_LEN: usize = 160;

/// Where a job stands in its lifecycle.
///
/// `Created -> Funded -> Submitted -> {Settled | Disputed}`, and
/// `Disputed -> Settled`. `Settled` is terminal: no operation accepts a
/// settled job.
#[derive(Clone, Copy, Debug, PartialEq, Eq, Structural)]
pub enum JobStatus {
    /// Allocated by the buyer; the reward is not yet escrowed.
    Created,
    /// The reward sits in the escrow holding.
    Funded,
    /// The operator has committed a result; resubmission stays possible.
    Submitted,
    /// The buyer rejected the result or a deadline elapsed; awaiting the
    /// operations authority.
    Disputed,
    /// The reward has been split and paid out; terminal.
    Settled,
}

/// Why a job entered `Disputed`.
#[derive(Clone, Copy, Debug, PartialEq, Eq, Structural)]
pub enum DisputeReason {
    /// The buyer reviewed the submission and rejected it.
    BuyerReject,
    /// The buyer or the operations authority escalated past the deadline.
    Timeout,
}

/// Which terminal path invoked the settlement engine.
#[derive(Clone, Copy, Debug, PartialEq, Eq, Structural)]
pub enum SettlementReason {
    /// The buyer approved the submission; the full reward is paid out.
    BuyerApprove,
    /// The operations authority resolved a dispute with a chosen payout.
    DisputeResolved,
}

/// The deployment-wide configuration singleton: the three trusted identities.
/// Only `ops` is ever mutated after initialization, and only by `admin`.
#[derive(Clone, Copy, Debug, PartialEq, Eq)]
pub struct Config {
    /// May replace the operations authority.
    pub admin: Identity,
    /// May resolve disputes and escalate timeouts.
    pub ops: Identity,
    /// Receives every platform fee.
    pub treasury: Identity,
}

/// One buyer-operator engagement: parties and terms fixed at creation, the
/// lifecycle status, the operator's submission, and the settlement amounts,
/// which stay zero until the job settles.
#[derive(Clone, Copy, Debug, PartialEq, Eq)]
pub struct Job {
    /// Caller-supplied identifier; (buyer, job_id) addresses the record.
    pub job_id: u64,
    /// Created the job, funds it, and reviews the result. Immutable.
    pub buyer: Identity,
    /// Performs the work and submits the result. Immutable.
    pub operator: Identity,
    /// Total value escrowed; positive and immutable.
    pub reward: u64,
    /// Platform fee in basis points, at most 10000. Immutable.
    pub fee_bps: u16,
    /// Unix timestamp after which a submitted job may be escalated;
    /// 0 disables the deadline.
    pub deadline_at: i64,
    /// Where the job stands in its lifecycle.
    pub status: JobStatus,
    /// 32-byte content commitment of the operator's result.
    pub submission_hash: [u8; 32],
    /// Whether a submission was ever recorded.
    pub submission_set: bool,
    /// Settlement input: the amount released toward the operator before the
    /// fee; zero until settled.
    pub payout: u64,
    /// Settlement output: the platform fee; zero until settled.
    pub fee_amount: u64,
    /// Settlement output: the operator's share; zero until settled.
    pub operator_receive: u64,
    /// Settlement output: the buyer's refund; zero until settled.
    pub buyer_refund: u64,
    /// Unix timestamp of creation.
    pub created_at: i64,
    /// Unix timestamp of the latest mutation.
    pub updated_at: i64,
}

impl Job {
    /// The record invariant: every constructor establishes it and every
    /// operation preserves it. Terms are in range, the settlement fields are
    /// zero before the terminal state, and a settled job conserves the
    /// reward exactly.
    pub open spec fn wf(self) -> bool {
        &&& self.reward > 0
        &&& self.fee_bps <= MAX_FEE_BPS
        &&& (!(self.status is Settled) ==> {
            &&& self.payout == 0
            &&& self.fee_amount == 0
            &&& self.operator_receive == 0
            &&& self.buyer_refund == 0
        })
        &&& (self.status is Settled ==> {
            &&& self.payout <= self.reward
            &&& self.operator_receive + self.fee_amount == self.payout
            &&& self.operator_receive + self.fee_amount + self.buyer_refund == self.reward
        })
    }
}

} // verus!
