//! The settlement engine.
//!
//! A settlement splits a requested payout into the platform fee, the
//! operator's share and the buyer's refund. The fee is a floor fraction of
//! the payout, not of the full reward, so a partial dispute payout yields a
//! proportionally smaller fee; the three amounts always sum to the reward
//! exactly. The engine computes and validates every amount before anything
//! moves, so a caller can perform the three value movements knowing that no
//! step of them can fail for arithmetic reasons.

use vstd::arithmetic::div_mod::*;
use vstd::arithmetic::mul::*;
use vstd::prelude::*;

use crate::errors::ErrorCode;
use crate::events::JobSettled;
use crate::identity::Identity;
use crate::state::{Job, JobStatus, SettlementReason, MAX_FEE_BPS};

verus! {

/// The three destinations of a settlement: what the operator receives, what
/// the treasury receives, and what flows back to the buyer.
#[derive(Clone, Copy, Debug, PartialEq, Eq, Structural)]
pub struct SettlementAmounts {
    /// The platform fee, `floor(payout * fee_bps / 10000)`.
    pub fee_amount: u64,
    /// The operator's share, `payout - fee_amount`.
    pub operator_receive: u64,
    /// The buyer's refund, `reward - payout`.
    pub buyer_refund: u64,
}

/// The platform fee on `payout` at `fee_bps` basis points: a floor-toward-zero
/// fraction of the payout.
pub open spec fn spec_fee_amount(payout: u64, fee_bps: u16) -> int {
    (payout as int) * (fee_bps as int) / (MAX_FEE_BPS as int)
}

/// What the operator receives: the payout net of the fee.
pub open spec fn spec_operator_receive(payout: u64, fee_bps: u16) -> int {
    payout - spec_fee_amount(payout, fee_bps)
}

/// What flows back to the buyer: the part of the reward not paid out.
pub open spec fn spec_buyer_refund(reward: u64, payout: u64) -> int {
    reward - payout
}

/// Whether the fee numerator `payout * fee_bps` stays within `u64`; beyond it
/// the engine refuses the settlement as an overflow.
pub open spec fn settlement_fits(payout: u64, fee_bps: u16) -> bool {
    (payout as int) * (fee_bps as int) <= u64::MAX
}

/// The inputs on which the engine settles: the payout is within the reward,
/// the fee numerator fits, and the fee does not exceed the payout (which a
/// fee rate of at most 10000 basis points guarantees).
pub open spec fn settlement_accepted(reward: u64, fee_bps: u16, payout: u64) -> bool {
    &&& payout <= reward
    &&& settlement_fits(payout, fee_bps)
    &&& spec_fee_amount(payout, fee_bps) <= payout
}

/// The split an accepted settlement produces.
pub open spec fn spec_amounts(reward: u64, fee_bps: u16, payout: u64) -> SettlementAmounts {
    SettlementAmounts {
        fee_amount: spec_fee_amount(payout, fee_bps) as u64,
        operator_receive: spec_operator_receive(payout, fee_bps) as u64,
        buyer_refund: spec_buyer_refund(reward, payout) as u64,
    }
}

/// The job record after an accepted settlement: the four settlement fields
/// populated, the status terminal, the timestamp refreshed, and every other
/// field untouched.
pub open spec fn spec_settled_job(job: Job, payout: u64, now: i64) -> Job {
    Job {
        status: JobStatus::Settled,
        payout,
        fee_amount: spec_fee_amount(payout, job.fee_bps) as u64,
        operator_receive: spec_operator_receive(payout, job.fee_bps) as u64,
        buyer_refund: spec_buyer_refund(job.reward, payout) as u64,
        updated_at: now,
        ..job
    }
}

/// The notification an accepted settlement emits.
pub open spec fn spec_settled_event(
    job: Job,
    treasury: Identity,
    payout: u64,
    reason: SettlementReason,
    now: i64,
) -> JobSettled {
    JobSettled {
        job_id: job.job_id,
        buyer: job.buyer,
        operator: job.operator,
        treasury,
        payout,
        fee_amount: spec_fee_amount(payout, job.fee_bps) as u64,
        operator_receive: spec_operator_receive(payout, job.fee_bps) as u64,
        buyer_refund: spec_buyer_refund(job.reward, payout) as u64,
        reason,
        ts: now,
    }
}

/// The fee is between zero and the payout whenever the fee rate is at most
/// 10000 basis points (100%).
pub proof fn lemma_fee_bounds(payout: u64, fee_bps: u16)
    requires
        fee_bps <= MAX_FEE_BPS,
    ensures
        0 <= spec_fee_amount(payout, fee_bps) <= payout,
{
    let p = payout as int;
    let f = fee_bps as int;
    lemma_mul_nonnegative(p, f);
    lemma_div_pos_is_pos(p * f, MAX_FEE_BPS as int);
    lemma_mul_inequality(f, MAX_FEE_BPS as int, p);
    lemma_div_is_ordered(p * f, (MAX_FEE_BPS as int) * p, MAX_FEE_BPS as int);
    lemma_div_multiples_vanish(p, MAX_FEE_BPS as int);
}

/// Conservation: for every payout within the reward and every fee rate of at
/// most 10000 basis points, the operator's share, the fee and the refund of
/// the resulting split sum to the reward exactly, and each part is within
/// its natural bound.
pub proof fn lemma_settlement_conserves_reward(reward: u64, fee_bps: u16, payout: u64)
    requires
        payout <= reward,
        fee_bps <= MAX_FEE_BPS,
    ensures
        ({
            let a = spec_amounts(reward, fee_bps, payout);
            &&& a.operator_receive + a.fee_amount + a.buyer_refund == reward
            &&& a.operator_receive + a.fee_amount == payout
            &&& a.fee_amount == spec_fee_amount(payout, fee_bps)
            &&& a.fee_amount <= payout
            &&& a.buyer_refund == reward - payout
        }),
{
    lemma_fee_bounds(payout, fee_bps);
}

/// A zero payout refunds the whole reward: the fee and the operator's share
/// are zero, and the buyer's refund is the reward, whatever the fee rate.
pub proof fn lemma_zero_payout_refunds_reward(reward: u64, fee_bps: u16)
    ensures
        spec_amounts(reward, fee_bps, 0) == (SettlementAmounts {
            fee_amount: 0,
            operator_receive: 0,
            buyer_refund: reward,
        }),
{
    lemma_div_pos_is_pos(0, MAX_FEE_BPS as int);
    lemma_div_nonincreasing(0, MAX_FEE_BPS as int);
}

/// A full payout at the full fee rate sends the whole reward to the
/// treasury: the fee is the reward, and the operator and the buyer receive
/// nothing, whatever the reward.
pub proof fn lemma_full_fee_takes_whole_payout(reward: u64)
    ensures
        spec_amounts(reward, MAX_FEE_BPS, reward) == (SettlementAmounts {
            fee_amount: reward,
            operator_receive: 0,
            buyer_refund: 0,
        }),
{
    let d = MAX_FEE_BPS as int;
    lemma_div_multiples_vanish(reward as int, d);
    assert((reward as int) * d == d * (reward as int)) by {
        lemma_mul_is_commutative(reward as int, d);
    }
}

/// Computes the split of `payout` under the job terms `reward` and `fee_bps`.
///
/// Rejects a payout above the reward, then a fee numerator beyond `u64`, then
/// a fee beyond the payout (possible only for a fee rate above 10000 basis
/// points); on every other input it returns the exact split, which conserves
/// the reward.
pub fn compute_settlement(reward: u64, fee_bps: u16, payout: u64) -> (r: Result<
    SettlementAmounts,
    ErrorCode,
>)
    ensures
        r is Ok <==> settlement_accepted(reward, fee_bps, payout),
        r matches Ok(a) ==> a == spec_amounts(reward, fee_bps, payout),
        r matches Ok(a) ==> a.operator_receive + a.fee_amount + a.buyer_refund == reward,
        r matches Ok(a) ==> a.operator_receive + a.fee_amount == payout,
        payout > reward ==> r == Err::<SettlementAmounts, ErrorCode>(ErrorCode::InvalidPayout),
        payout <= reward && !settlement_accepted(reward, fee_bps, payout) ==> r == Err::<
            SettlementAmounts,
            ErrorCode,
        >(ErrorCode::MathOverflow),
{
    if payout > reward {
        return Err(ErrorCode::InvalidPayout);
    }
    let numerator = match payout.checked_mul(fee_bps as u64) {
        Some(n) => n,
        None => { return Err(ErrorCode::MathOverflow) },
    };
    let fee_amount = numerator / (MAX_FEE_BPS as u64);
    let operator_receive = match payout.checked_sub(fee_amount) {
        Some(v) => v,
        None => { return Err(ErrorCode::MathOverflow) },
    };
    let buyer_refund = reward - payout;
    Ok(SettlementAmounts { fee_amount, operator_receive, buyer_refund })
}

/// Moves `amount` between two balances, as the runtime's value-transfer
/// primitive does: a zero amount moves nothing and is no error, a debit
/// beyond the source fails, and so does a credit beyond `u64`. The sum of
/// the two balances is conserved.
pub fn transfer_lamports(from_balance: u64, to_balance: u64, amount: u64) -> (r: Result<
    (u64, u64),
    ErrorCode,
>)
    ensures
        r is Ok <==> amount == 0 || (amount <= from_balance && to_balance + amount <= u64::MAX),
        amount == 0 ==> r == Ok::<(u64, u64), ErrorCode>((from_balance, to_balance)),
        amount > 0 && from_balance < amount ==> r == Err::<(u64, u64), ErrorCode>(
            ErrorCode::InsufficientVaultBalance,
        ),
        amount > 0 && from_balance >= amount && to_balance + amount > u64::MAX ==> r == Err::<
            (u64, u64),
            ErrorCode,
        >(ErrorCode::MathOverflow),
        amount > 0 && from_balance >= amount && to_balance + amount <= u64::MAX ==> r == Ok::<
            (u64, u64),
            ErrorCode,
        >(((from_balance - amount) as u64, (to_balance + amount) as u64)),
        r matches Ok((f, t)) ==> f + t == from_balance + to_balance,
{
    if amount == 0 {
        return Ok((from_balance, to_balance));
    }
    let from_next = match from_balance.checked_sub(amount) {
        Some(v) => v,
        None => { return Err(ErrorCode::InsufficientVaultBalance) },
    };
    let to_next = match to_balance.checked_add(amount) {
        Some(v) => v,
        None => { return Err(ErrorCode::MathOverflow) },
    };
    Ok((from_next, to_next))
}

/// Settles a job: validates the payout against the job's terms and the
/// escrow's balance, records the split on the job, marks it settled and
/// returns the split together with the notification it owes. On any
/// rejection the job is left unmodified and nothing may move.
pub fn settle_job(
    job: &mut Job,
    treasury: Identity,
    payout: u64,
    vault_balance: u64,
    reason: SettlementReason,
    now: i64,
) -> (r: Result<(SettlementAmounts, JobSettled), ErrorCode>)
    ensures
        r is Ok <==> settlement_accepted(old(job).reward, old(job).fee_bps, payout)
            && vault_balance >= old(job).reward,
        r is Err ==> *final(job) == *old(job),
        payout > old(job).reward ==> r == Err::<(SettlementAmounts, JobSettled), ErrorCode>(
            ErrorCode::InvalidPayout,
        ),
        payout <= old(job).reward && !settlement_accepted(old(job).reward, old(job).fee_bps, payout)
            ==> r == Err::<(SettlementAmounts, JobSettled), ErrorCode>(ErrorCode::MathOverflow),
        settlement_accepted(old(job).reward, old(job).fee_bps, payout) && vault_balance < old(
            job,
        ).reward ==> r == Err::<(SettlementAmounts, JobSettled), ErrorCode>(
            ErrorCode::InsufficientVaultBalance,
        ),
        r matches Ok((a, ev)) ==> {
            &&& a == spec_amounts(old(job).reward, old(job).fee_bps, payout)
            &&& a.operator_receive + a.fee_amount + a.buyer_refund == old(job).reward
            &&& *final(job) == spec_settled_job(*old(job), payout, now)
            &&& ev == spec_settled_event(*old(job), treasury, payout, reason, now)
        },
{
    let amounts = match compute_settlement(job.reward, job.fee_bps, payout) {
        Ok(a) => a,
        Err(e) => { return Err(e) },
    };
    if vault_balance < job.reward {
        return Err(ErrorCode::InsufficientVaultBalance);
    }
    job.status = JobStatus::Settled;
    job.payout = payout;
    job.fee_amount = amounts.fee_amount;
    job.operator_receive = amounts.operator_receive;
    job.buyer_refund = amounts.buyer_refund;
    job.updated_at = now;
    let ev = JobSettled {
        job_id: job.job_id,
        buyer: job.buyer,
        operator: job.operator,
        treasury,
        payout,
        fee_amount: job.fee_amount,
        operator_receive: job.operator_receive,
        buyer_refund: job.buyer_refund,
        reason,
        ts: now,
    };
    Ok((amounts, ev))
}

} // verus!
