//! Notification records.
//!
//! Every operation that succeeds returns the notification it owes to external
//! observers; the hosting runtime appends it to its event log. Events carry
//! no control flow.

use vstd::prelude::*;

use crate::identity::Identity;
use crate::state::{DisputeReason, SettlementReason};

verus! {

/// The configuration singleton was created.
#[derive(Clone, Copy, Debug, PartialEq, Eq)]
pub struct ConfigInitialized {
    /// The administrator, set to the initializing caller.
    pub admin: Identity,
    /// The operations authority.
    pub ops: Identity,
    /// The fee destination.
    pub treasury: Identity,
    /// When the record was created.
    pub ts: i64,
}

/// The administrator replaced the operations authority.
#[derive(Clone, Copy, Debug, PartialEq, Eq)]
pub struct OpsUpdated {
    /// The administrator who made the change.
    pub admin: Identity,
    /// The authority being replaced.
    pub old_ops: Identity,
    /// The authority from now on.
    pub new_ops: Identity,
    /// When the change happened.
    pub ts: i64,
}

/// A job record was allocated.
#[derive(Clone, Copy, Debug, PartialEq, Eq)]
pub struct JobCreated {
    /// The caller-supplied identifier of the new job.
    pub job_id: u64,
    /// The buyer who created it.
    pub buyer: Identity,
    /// The operator engaged for it.
    pub operator: Identity,
    /// The reward to be escrowed.
    pub reward: u64,
    /// The platform fee in basis points.
    pub fee_bps: u16,
    /// The escalation deadline, or 0 for none.
    pub deadline_at: i64,
    /// When the record was created.
    pub ts: i64,
}

/// The reward moved into the escrow holding.
#[derive(Clone, Copy, Debug, PartialEq, Eq)]
pub struct JobFunded {
    /// The funded job.
    pub job_id: u64,
    /// The buyer who funded it.
    pub buyer: Identity,
    /// The amount now held in escrow.
    pub reward: u64,
    /// When the job was funded.
    pub ts: i64,
}

/// The operator committed a result.
#[derive(Clone, Copy, Debug, PartialEq, Eq)]
pub struct ResultSubmitted {
    /// The job submitted to.
    pub job_id: u64,
    /// The operator who submitted.
    pub operator: Identity,
    /// The content commitment of the result.
    pub submission_hash: [u8; 32],
    /// When the result was recorded.
    pub ts: i64,
}

/// The job entered the dispute path.
#[derive(Clone, Copy, Debug, PartialEq, Eq)]
pub struct JobDisputed {
    /// The disputed job.
    pub job_id: u64,
    /// Its buyer.
    pub buyer: Identity,
    /// Its operator.
    pub operator: Identity,
    /// Who escalated: the buyer on rejection, the buyer or the operations
    /// authority on timeout.
    pub by: Identity,
    /// Whether the buyer rejected or a deadline elapsed.
    pub reason: DisputeReason,
    /// When the dispute was opened.
    pub ts: i64,
}

/// The settlement engine split the reward and the job reached its terminal
/// state.
#[derive(Clone, Copy, Debug, PartialEq, Eq)]
pub struct JobSettled {
    /// The settled job.
    pub job_id: u64,
    /// Its buyer, who receives the refund.
    pub buyer: Identity,
    /// Its operator, who receives the payout net of the fee.
    pub operator: Identity,
    /// The fee destination.
    pub treasury: Identity,
    /// The amount released toward the operator before the fee.
    pub payout: u64,
    /// The platform fee taken out of the payout.
    pub fee_amount: u64,
    /// What the operator receives.
    pub operator_receive: u64,
    /// What flows back to the buyer.
    pub buyer_refund: u64,
    /// Which terminal path settled the job.
    pub reason: SettlementReason,
    /// When the job settled.
    pub ts: i64,
}

/// The operations authority resolved a dispute; accompanies the `JobSettled`
/// notification of the same settlement.
#[derive(Debug, PartialEq, Eq)]
pub struct DisputeResolved {
    /// The resolved job.
    pub job_id: u64,
    /// The operations authority that decided.
    pub ops: Identity,
    /// The payout it chose.
    pub payout: u64,
    /// Its free-form audit note, at most 160 bytes.
    pub reason: String,
    /// When the dispute was resolved.
    pub ts: i64,
}

} // verus!
