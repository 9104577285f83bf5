//! The job lifecycle controller.
//!
//! Each operation validates the caller's identity, the job's status and the
//! operation's own parameters, then drives the record one step through
//! `Created -> Funded -> Submitted -> {Settled | Disputed}` and
//! `Disputed -> Settled`. The hosting runtime verifies signatures, samples
//! the clock once per operation and persists the record; it hands the
//! verified caller identity and the sampled time in as plain arguments. A
//! successful operation returns the notification it owes to observers; a
//! failed one returns its error kind and leaves the record untouched.

use vstd::prelude::*;

use crate::errors::ErrorCode;
use crate::events::{
    ConfigInitialized, DisputeResolved, JobCreated, JobDisputed, JobFunded, JobSettled, OpsUpdated,
    ResultSubmitted,
};
use crate::identity::Identity;
use crate::settlement::{
    lemma_settlement_conserves_reward, settle_job, settlement_accepted, spec_amounts,
    spec_settled_event, spec_settled_job, SettlementAmounts,
};
use crate::state::{
    Config, DisputeReason, Job, JobStatus, SettlementReason, MAX_FEE_BPS, MAX_REASON_LEN,
};

verus! {

/// How a review concluded.
#[derive(Clone, Copy, Debug, PartialEq, Eq)]
pub enum ReviewOutcome {
    /// The buyer approved: the job settled at the full reward, with the
    /// returned split and notification.
    Approved(SettlementAmounts, JobSettled),
    /// The buyer rejected: the job is disputed, with the returned
    /// notification.
    Rejected(JobDisputed),
}

/// The terms a new job must satisfy: a positive reward, a fee rate of at
/// most 10000 basis points, and a deadline that is disabled (zero) or
/// strictly in the future.
pub open spec fn create_terms_valid(reward: u64, fee_bps: u16, deadline_at: i64, now: i64) -> bool {
    &&& reward > 0
    &&& fee_bps <= MAX_FEE_BPS
    &&& (deadline_at != 0 ==> deadline_at > now)
}

/// The job record a successful creation allocates.
pub open spec fn spec_new_job(
    buyer: Identity,
    operator: Identity,
    job_id: u64,
    reward: u64,
    fee_bps: u16,
    deadline_at: i64,
    now: i64,
) -> Job {
    Job {
        job_id,
        buyer,
        operator,
        reward,
        fee_bps,
        deadline_at,
        status: JobStatus::Created,
        submission_hash: vstd::array::spec_array_fill_for_copy_type::<u8, 32>(0u8),
        submission_set: false,
        payout: 0,
        fee_amount: 0,
        operator_receive: 0,
        buyer_refund: 0,
        created_at: now,
        updated_at: now,
    }
}

/// Whether a review may proceed to its decision: the caller is the buyer, a
/// result is awaiting review, and a submission was recorded.
pub open spec fn review_ready(job: Job, caller: Identity) -> bool {
    &&& caller == job.buyer
    &&& job.status is Submitted
    &&& job.submission_set
}

/// Who may escalate a submitted job past its deadline: its buyer or the
/// operations authority, never the operator.
pub open spec fn timeout_authorized(job: Job, config: Config, actor: Identity) -> bool {
    actor == job.buyer || actor == config.ops
}

/// Whether the deadline stands in the way of an escalation: a deadline of
/// zero is disabled and never does, any other one does until the current
/// time lies strictly past it.
pub open spec fn deadline_passed(deadline_at: i64, now: i64) -> bool {
    deadline_at == 0 || now > deadline_at
}

/// The byte length of a dispute resolution's audit note.
pub open spec fn reason_len(reason: Seq<char>) -> nat {
    vstd::utf8::encode_utf8(reason).len()
}

/// Whether a dispute resolution may proceed to the settlement: the caller is
/// the operations authority, the audit note is within bounds, and the job is
/// disputed.
pub open spec fn resolve_ready(job: Job, config: Config, caller: Identity, reason: Seq<char>) -> bool {
    &&& caller == config.ops
    &&& reason_len(reason) <= MAX_REASON_LEN
    &&& job.status is Disputed
}

/// Creates the configuration singleton, making the caller the administrator.
/// The storage substrate's create-once semantics keep it unique.
pub fn initialize_config(admin: Identity, ops: Identity, treasury: Identity, now: i64) -> (r: (
    Config,
    ConfigInitialized,
))
    ensures
        r.0 == (Config { admin, ops, treasury }),
        r.1 == (ConfigInitialized { admin, ops, treasury, ts: now }),
{
    let config = Config { admin, ops, treasury };
    let ev = ConfigInitialized { admin, ops, treasury, ts: now };
    (config, ev)
}

/// Replaces the operations authority. Only the stored administrator may do
/// so, and no other field of the configuration ever changes.
pub fn update_ops(config: &mut Config, caller: Identity, new_ops: Identity, now: i64) -> (r: Result<
    OpsUpdated,
    ErrorCode,
>)
    ensures
        caller != old(config).admin ==> {
            &&& r == Err::<OpsUpdated, ErrorCode>(ErrorCode::UnauthorizedActor)
            &&& *final(config) == *old(config)
        },
        caller == old(config).admin ==> {
            &&& r == Ok::<OpsUpdated, ErrorCode>(OpsUpdated {
                admin: caller,
                old_ops: old(config).ops,
                new_ops,
                ts: now,
            })
            &&& *final(config) == (Config { ops: new_ops, ..*old(config) })
        },
{
    if !(caller == config.admin) {
        return Err(ErrorCode::UnauthorizedActor);
    }
    let ev = OpsUpdated { admin: caller, old_ops: config.ops, new_ops, ts: now };
    config.ops = new_ops;
    Ok(ev)
}

/// Allocates a job record for the buyer, validating the terms: the reward
/// must be positive, the fee rate at most 10000 basis points, and a nonzero
/// deadline strictly in the future. The record starts unfunded with every
/// settlement field zero.
pub fn create_job(
    buyer: Identity,
    operator: Identity,
    job_id: u64,
    reward: u64,
    fee_bps: u16,
    deadline_at: i64,
    now: i64,
) -> (r: Result<(Job, JobCreated), ErrorCode>)
    ensures
        r is Ok <==> create_terms_valid(reward, fee_bps, deadline_at, now),
        reward == 0 ==> r == Err::<(Job, JobCreated), ErrorCode>(ErrorCode::InvalidReward),
        reward > 0 && fee_bps > MAX_FEE_BPS ==> r == Err::<(Job, JobCreated), ErrorCode>(
            ErrorCode::InvalidFeeBps,
        ),
        reward > 0 && fee_bps <= MAX_FEE_BPS && deadline_at != 0 && deadline_at <= now ==> r
            == Err::<(Job, JobCreated), ErrorCode>(ErrorCode::InvalidDeadline),
        r matches Ok((job, ev)) ==> {
            &&& job == spec_new_job(buyer, operator, job_id, reward, fee_bps, deadline_at, now)
            &&& job.wf()
            &&& ev == (JobCreated { job_id, buyer, operator, reward, fee_bps, deadline_at, ts: now })
        },
{
    if reward == 0 {
        return Err(ErrorCode::InvalidReward);
    }
    if fee_bps > MAX_FEE_BPS {
        return Err(ErrorCode::InvalidFeeBps);
    }
    if deadline_at != 0 && deadline_at <= now {
        return Err(ErrorCode::InvalidDeadline);
    }
    let job = Job {
        job_id,
        buyer,
        operator,
        reward,
        fee_bps,
        deadline_at,
        status: JobStatus::Created,
        submission_hash: vstd::array::array_fill_for_copy_types::<u8, 32>(0u8),
        submission_set: false,
        payout: 0,
        fee_amount: 0,
        operator_receive: 0,
        buyer_refund: 0,
        created_at: now,
        updated_at: now,
    };
    let ev = JobCreated { job_id, buyer, operator, reward, fee_bps, deadline_at, ts: now };
    Ok((job, ev))
}

/// Marks the job funded once the buyer has moved exactly the reward into the
/// escrow holding. Only the job's buyer may fund, and only a freshly created
/// job; the notification's `reward` is the amount the escrow must have
/// received.
pub fn fund_job(job: &mut Job, caller: Identity, now: i64) -> (r: Result<JobFunded, ErrorCode>)
    requires
        old(job).wf(),
    ensures
        final(job).wf(),
        r is Err ==> *final(job) == *old(job),
        caller != old(job).buyer ==> r == Err::<JobFunded, ErrorCode>(ErrorCode::UnauthorizedActor),
        caller == old(job).buyer && !(old(job).status is Created) ==> r == Err::<
            JobFunded,
            ErrorCode,
        >(ErrorCode::InvalidStatus),
        caller == old(job).buyer && old(job).status is Created ==> {
            &&& r == Ok::<JobFunded, ErrorCode>(JobFunded {
                job_id: old(job).job_id,
                buyer: caller,
                reward: old(job).reward,
                ts: now,
            })
            &&& *final(job) == (Job { status: JobStatus::Funded, updated_at: now, ..*old(job) })
        },
{
    if !(caller == job.buyer) {
        return Err(ErrorCode::UnauthorizedActor);
    }
    if !(job.status == JobStatus::Created) {
        return Err(ErrorCode::InvalidStatus);
    }
    job.status = JobStatus::Funded;
    job.updated_at = now;
    Ok(JobFunded { job_id: job.job_id, buyer: caller, reward: job.reward, ts: now })
}

/// Records the operator's result commitment. Only the job's operator may
/// submit, on a funded job or over an earlier submission still awaiting
/// review; once reviewed, the job leaves the submission-editable states.
pub fn submit_result(
    job: &mut Job,
    caller: Identity,
    submission_hash: [u8; 32],
    now: i64,
) -> (r: Result<ResultSubmitted, ErrorCode>)
    requires
        old(job).wf(),
    ensures
        final(job).wf(),
        r is Err ==> *final(job) == *old(job),
        caller != old(job).operator ==> r == Err::<ResultSubmitted, ErrorCode>(
            ErrorCode::UnauthorizedActor,
        ),
        caller == old(job).operator && !(old(job).status is Funded || old(job).status is Submitted)
            ==> r == Err::<ResultSubmitted, ErrorCode>(ErrorCode::InvalidStatus),
        caller == old(job).operator && (old(job).status is Funded || old(job).status is Submitted)
            ==> {
            &&& r == Ok::<ResultSubmitted, ErrorCode>(ResultSubmitted {
                job_id: old(job).job_id,
                operator: caller,
                submission_hash,
                ts: now,
            })
            &&& *final(job) == (Job {
                status: JobStatus::Submitted,
                submission_hash,
                submission_set: true,
                updated_at: now,
                ..*old(job)
            })
        },
{
    if !(caller == job.operator) {
        return Err(ErrorCode::UnauthorizedActor);
    }
    if !(job.status == JobStatus::Funded || job.status == JobStatus::Submitted) {
        return Err(ErrorCode::InvalidStatus);
    }
    job.submission_hash = submission_hash;
    job.submission_set = true;
    job.status = JobStatus::Submitted;
    job.updated_at = now;
    Ok(ResultSubmitted { job_id: job.job_id, operator: caller, submission_hash, ts: now })
}

/// The buyer's review of a submitted result. Approval settles the job at the
/// full reward through the settlement engine; rejection opens a dispute for
/// the operations authority. Only the job's buyer may review, whatever the
/// job's state.
pub fn review_job(
    job: &mut Job,
    config: &Config,
    caller: Identity,
    approve: bool,
    vault_balance: u64,
    now: i64,
) -> (r: Result<ReviewOutcome, ErrorCode>)
    requires
        old(job).wf(),
    ensures
        final(job).wf(),
        r is Err ==> *final(job) == *old(job),
        caller != old(job).buyer ==> r == Err::<ReviewOutcome, ErrorCode>(
            ErrorCode::UnauthorizedActor,
        ),
        caller == old(job).buyer && !(old(job).status is Submitted) ==> r == Err::<
            ReviewOutcome,
            ErrorCode,
        >(ErrorCode::InvalidStatus),
        caller == old(job).buyer && old(job).status is Submitted && !old(job).submission_set ==> r
            == Err::<ReviewOutcome, ErrorCode>(ErrorCode::SubmissionMissing),
        review_ready(*old(job), caller) && approve ==> {
            &&& !settlement_accepted(old(job).reward, old(job).fee_bps, old(job).reward) ==> r
                == Err::<ReviewOutcome, ErrorCode>(ErrorCode::MathOverflow)
            &&& settlement_accepted(old(job).reward, old(job).fee_bps, old(job).reward)
                && vault_balance < old(job).reward ==> r == Err::<ReviewOutcome, ErrorCode>(
                ErrorCode::InsufficientVaultBalance,
            )
            &&& settlement_accepted(old(job).reward, old(job).fee_bps, old(job).reward)
                && vault_balance >= old(job).reward ==> {
                &&& r == Ok::<ReviewOutcome, ErrorCode>(ReviewOutcome::Approved(
                    spec_amounts(old(job).reward, old(job).fee_bps, old(job).reward),
                    spec_settled_event(
                        *old(job),
                        config.treasury,
                        old(job).reward,
                        SettlementReason::BuyerApprove,
                        now,
                    ),
                ))
                &&& *final(job) == spec_settled_job(*old(job), old(job).reward, now)
            }
        },
        review_ready(*old(job), caller) && !approve ==> {
            &&& r == Ok::<ReviewOutcome, ErrorCode>(ReviewOutcome::Rejected(JobDisputed {
                job_id: old(job).job_id,
                buyer: old(job).buyer,
                operator: old(job).operator,
                by: caller,
                reason: DisputeReason::BuyerReject,
                ts: now,
            }))
            &&& *final(job) == (Job { status: JobStatus::Disputed, updated_at: now, ..*old(job) })
        },
{
    if !(caller == job.buyer) {
        return Err(ErrorCode::UnauthorizedActor);
    }
    if !(job.status == JobStatus::Submitted) {
        return Err(ErrorCode::InvalidStatus);
    }
    if !job.submission_set {
        return Err(ErrorCode::SubmissionMissing);
    }
    if approve {
        let payout = job.reward;
        match settle_job(job, config.treasury, payout, vault_balance, SettlementReason::BuyerApprove, now) {
            Ok((amounts, ev)) => {
                proof {
                    lemma_settlement_conserves_reward(old(job).reward, old(job).fee_bps, payout);
                }
                Ok(ReviewOutcome::Approved(amounts, ev))
            },
            Err(e) => Err(e),
        }
    } else {
        job.status = JobStatus::Disputed;
        job.updated_at = now;
        Ok(ReviewOutcome::Rejected(JobDisputed {
            job_id: job.job_id,
            buyer: job.buyer,
            operator: job.operator,
            by: caller,
            reason: DisputeReason::BuyerReject,
            ts: now,
        }))
    }
}

/// Escalates a submitted job to the dispute path. The buyer or the
/// operations authority may escalate — never the operator — and a nonzero
/// deadline must lie strictly in the past; a deadline of zero is disabled
/// and never blocks the escalation.
pub fn trigger_timeout(job: &mut Job, config: &Config, actor: Identity, now: i64) -> (r: Result<
    JobDisputed,
    ErrorCode,
>)
    requires
        old(job).wf(),
    ensures
        final(job).wf(),
        r is Err ==> *final(job) == *old(job),
        !(old(job).status is Submitted) ==> r == Err::<JobDisputed, ErrorCode>(
            ErrorCode::InvalidStatus,
        ),
        old(job).status is Submitted && !timeout_authorized(*old(job), *config, actor) ==> r
            == Err::<JobDisputed, ErrorCode>(ErrorCode::UnauthorizedActor),
        old(job).status is Submitted && timeout_authorized(*old(job), *config, actor) && !deadline_passed(
            old(job).deadline_at,
            now,
        ) ==> r == Err::<JobDisputed, ErrorCode>(ErrorCode::DeadlineNotReached),
        old(job).status is Submitted && timeout_authorized(*old(job), *config, actor)
            && deadline_passed(old(job).deadline_at, now) ==> {
            &&& r == Ok::<JobDisputed, ErrorCode>(JobDisputed {
                job_id: old(job).job_id,
                buyer: old(job).buyer,
                operator: old(job).operator,
                by: actor,
                reason: DisputeReason::Timeout,
                ts: now,
            })
            &&& *final(job) == (Job { status: JobStatus::Disputed, updated_at: now, ..*old(job) })
        },
        old(job).deadline_at == 0 ==> r != Err::<JobDisputed, ErrorCode>(
            ErrorCode::DeadlineNotReached,
        ),
{
    if !(job.status == JobStatus::Submitted) {
        return Err(ErrorCode::InvalidStatus);
    }
    let authorized = actor == job.buyer || actor == config.ops;
    if !authorized {
        return Err(ErrorCode::UnauthorizedActor);
    }
    if job.deadline_at != 0 && now <= job.deadline_at {
        return Err(ErrorCode::DeadlineNotReached);
    }
    job.status = JobStatus::Disputed;
    job.updated_at = now;
    Ok(JobDisputed {
        job_id: job.job_id,
        buyer: job.buyer,
        operator: job.operator,
        by: actor,
        reason: DisputeReason::Timeout,
        ts: now,
    })
}

/// The operations authority's resolution of a dispute: it chooses a payout
/// of at most the reward and the settlement engine splits it; the audit note
/// travels in the second notification and may hold at most 160 bytes.
pub fn resolve_dispute(
    job: &mut Job,
    config: &Config,
    caller: Identity,
    payout: u64,
    reason: String,
    vault_balance: u64,
    now: i64,
) -> (r: Result<(SettlementAmounts, JobSettled, DisputeResolved), ErrorCode>)
    requires
        old(job).wf(),
    ensures
        final(job).wf(),
        r is Err ==> *final(job) == *old(job),
        caller != config.ops ==> r == Err::<
            (SettlementAmounts, JobSettled, DisputeResolved),
            ErrorCode,
        >(ErrorCode::UnauthorizedActor),
        caller == config.ops && reason_len(reason@) > MAX_REASON_LEN ==> r == Err::<
            (SettlementAmounts, JobSettled, DisputeResolved),
            ErrorCode,
        >(ErrorCode::ReasonTooLong),
        caller == config.ops && reason_len(reason@) <= MAX_REASON_LEN && !(old(
            job,
        ).status is Disputed) ==> r == Err::<
            (SettlementAmounts, JobSettled, DisputeResolved),
            ErrorCode,
        >(ErrorCode::InvalidStatus),
        resolve_ready(*old(job), *config, caller, reason@) ==> {
            &&& payout > old(job).reward ==> r == Err::<
                (SettlementAmounts, JobSettled, DisputeResolved),
                ErrorCode,
            >(ErrorCode::InvalidPayout)
            &&& payout <= old(job).reward && !settlement_accepted(
                old(job).reward,
                old(job).fee_bps,
                payout,
            ) ==> r == Err::<(SettlementAmounts, JobSettled, DisputeResolved), ErrorCode>(
                ErrorCode::MathOverflow,
            )
            &&& settlement_accepted(old(job).reward, old(job).fee_bps, payout) && vault_balance
                < old(job).reward ==> r == Err::<
                (SettlementAmounts, JobSettled, DisputeResolved),
                ErrorCode,
            >(ErrorCode::InsufficientVaultBalance)
        },
        r is Ok <==> resolve_ready(*old(job), *config, caller, reason@) && settlement_accepted(
            old(job).reward,
            old(job).fee_bps,
            payout,
        ) && vault_balance >= old(job).reward,
        r matches Ok((a, sev, dev)) ==> {
            &&& a == spec_amounts(old(job).reward, old(job).fee_bps, payout)
            &&& a.operator_receive + a.fee_amount + a.buyer_refund == old(job).reward
            &&& sev == spec_settled_event(
                *old(job),
                config.treasury,
                payout,
                SettlementReason::DisputeResolved,
                now,
            )
            &&& dev == (DisputeResolved {
                job_id: old(job).job_id,
                ops: caller,
                payout,
                reason,
                ts: now,
            })
            &&& *final(job) == spec_settled_job(*old(job), payout, now)
        },
{
    if !(caller == config.ops) {
        return Err(ErrorCode::UnauthorizedActor);
    }
    let note_len: usize = reason.as_str().as_bytes().len();
    if note_len > MAX_REASON_LEN {
        return Err(ErrorCode::ReasonTooLong);
    }
    if !(job.status == JobStatus::Disputed) {
        return Err(ErrorCode::InvalidStatus);
    }
    let job_id = job.job_id;
    match settle_job(
        job,
        config.treasury,
        payout,
        vault_balance,
        SettlementReason::DisputeResolved,
        now,
    ) {
        Ok((amounts, sev)) => {
            proof {
                lemma_settlement_conserves_reward(old(job).reward, old(job).fee_bps, payout);
            }
            let dev = DisputeResolved { job_id, ops: caller, payout, reason, ts: now };
            Ok((amounts, sev, dev))
        },
        Err(e) => Err(e),
    }
}

} // verus!
