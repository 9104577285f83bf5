use outcome_escrow::errors::ErrorCode;
use outcome_escrow::events::JobSettled;
use outcome_escrow::identity::Identity;
use outcome_escrow::lifecycle::{
    create_job, fund_job, initialize_config, resolve_dispute, review_job, submit_result,
    trigger_timeout, update_ops, ReviewOutcome,
};
use outcome_escrow::settlement::settle_job;
use outcome_escrow::state::{Config, Job, JobStatus, SettlementReason};

fn id(tag: u8) -> Identity {
    Identity { bytes: [tag; 32] }
}

fn test_config() -> Config {
    Config { admin: id(1), ops: id(2), treasury: id(3) }
}

fn funded_submitted_job(deadline_at: i64) -> Job {
    let (mut job, _) = create_job(id(10), id(11), 1, 1000, 500, deadline_at, 100).unwrap();
    fund_job(&mut job, id(10), 101).unwrap();
    submit_result(&mut job, id(11), [9; 32], 102).unwrap();
    job
}

#[test]
fn config_initialize_and_update_ops() {
    let (mut config, ev) = initialize_config(id(1), id(2), id(3), 50);
    assert_eq!(config, test_config());
    assert_eq!(ev.admin, id(1));
    assert_eq!(ev.ts, 50);

    let upd = update_ops(&mut config, id(1), id(9), 60).unwrap();
    assert_eq!(config.ops, id(9));
    assert_eq!(config.admin, id(1));
    assert_eq!(config.treasury, id(3));
    assert_eq!(upd.old_ops, id(2));
    assert_eq!(upd.new_ops, id(9));
}

#[test]
fn update_ops_by_non_admin_is_unauthorized() {
    let mut config = test_config();
    let before = config;
    assert_eq!(update_ops(&mut config, id(5), id(9), 60), Err(ErrorCode::UnauthorizedActor));
    assert_eq!(config, before);
}

#[test]
fn create_job_validates_terms() {
    assert_eq!(
        create_job(id(10), id(11), 1, 0, 500, 0, 100).unwrap_err(),
        ErrorCode::InvalidReward
    );
    assert_eq!(
        create_job(id(10), id(11), 1, 1000, 10001, 0, 100).unwrap_err(),
        ErrorCode::InvalidFeeBps
    );
    // A nonzero deadline must lie strictly in the future.
    assert_eq!(
        create_job(id(10), id(11), 1, 1000, 500, 100, 100).unwrap_err(),
        ErrorCode::InvalidDeadline
    );
    // A negative deadline is nonzero and already past, so it is rejected too.
    assert_eq!(
        create_job(id(10), id(11), 1, 1000, 500, -5, 100).unwrap_err(),
        ErrorCode::InvalidDeadline
    );
}

#[test]
fn create_job_allocates_unfunded_record() {
    let (job, ev) = create_job(id(10), id(11), 42, 1000, 500, 0, 100).unwrap();
    assert_eq!(job.job_id, 42);
    assert_eq!(job.buyer, id(10));
    assert_eq!(job.operator, id(11));
    assert_eq!(job.reward, 1000);
    assert_eq!(job.fee_bps, 500);
    assert_eq!(job.status, JobStatus::Created);
    assert_eq!(job.submission_hash, [0; 32]);
    assert!(!job.submission_set);
    assert_eq!(
        (job.payout, job.fee_amount, job.operator_receive, job.buyer_refund),
        (0, 0, 0, 0)
    );
    assert_eq!((job.created_at, job.updated_at), (100, 100));
    assert_eq!(ev.job_id, 42);
    assert_eq!(ev.reward, 1000);
}

#[test]
fn submit_before_funding_is_invalid_status() {
    let (mut job, _) = create_job(id(10), id(11), 1, 1000, 500, 0, 100).unwrap();
    let before = job;
    assert_eq!(
        submit_result(&mut job, id(11), [9; 32], 101),
        Err(ErrorCode::InvalidStatus)
    );
    assert_eq!(job, before);
}

#[test]
fn wrong_status_leaves_record_unchanged() {
    let config = test_config();
    // Funding twice, reviewing an unsubmitted job and resolving an
    // undisputed one are all status violations that change nothing.
    let (mut job, _) = create_job(id(10), id(11), 1, 1000, 500, 0, 100).unwrap();
    fund_job(&mut job, id(10), 101).unwrap();
    let before = job;
    assert_eq!(fund_job(&mut job, id(10), 102), Err(ErrorCode::InvalidStatus));
    assert_eq!(job, before);
    assert_eq!(
        review_job(&mut job, &config, id(10), true, 1000, 102),
        Err(ErrorCode::InvalidStatus)
    );
    assert_eq!(job, before);
    assert_eq!(
        resolve_dispute(&mut job, &config, id(2), 10, String::from("note"), 1000, 102),
        Err(ErrorCode::InvalidStatus)
    );
    assert_eq!(job, before);
    assert_eq!(trigger_timeout(&mut job, &config, id(10), 102), Err(ErrorCode::InvalidStatus));
    assert_eq!(job, before);
}

#[test]
fn fund_by_non_buyer_is_unauthorized() {
    let (mut job, _) = create_job(id(10), id(11), 1, 1000, 500, 0, 100).unwrap();
    let before = job;
    assert_eq!(fund_job(&mut job, id(11), 101), Err(ErrorCode::UnauthorizedActor));
    assert_eq!(job, before);
}

#[test]
fn submit_by_non_operator_is_unauthorized() {
    let (mut job, _) = create_job(id(10), id(11), 1, 1000, 500, 0, 100).unwrap();
    fund_job(&mut job, id(10), 101).unwrap();
    let before = job;
    assert_eq!(
        submit_result(&mut job, id(10), [9; 32], 102),
        Err(ErrorCode::UnauthorizedActor)
    );
    assert_eq!(job, before);
}

#[test]
fn review_by_non_buyer_is_unauthorized_in_every_state() {
    let config = test_config();
    // Freshly created.
    let (mut job, _) = create_job(id(10), id(11), 1, 1000, 500, 0, 100).unwrap();
    assert_eq!(
        review_job(&mut job, &config, id(11), true, 1000, 101),
        Err(ErrorCode::UnauthorizedActor)
    );
    // Submitted and awaiting review.
    let mut job = funded_submitted_job(0);
    let before = job;
    assert_eq!(
        review_job(&mut job, &config, id(2), true, 1000, 103),
        Err(ErrorCode::UnauthorizedActor)
    );
    assert_eq!(job, before);
}

#[test]
fn review_without_submission_is_missing() {
    let config = test_config();
    let mut job = funded_submitted_job(0);
    // A record claiming a pending review without any recorded submission is
    // refused before any settlement is attempted.
    job.submission_set = false;
    let before = job;
    assert_eq!(
        review_job(&mut job, &config, id(10), true, 1000, 103),
        Err(ErrorCode::SubmissionMissing)
    );
    assert_eq!(job, before);
}

#[test]
fn approval_settles_whole_reward() {
    let config = test_config();
    let mut job = funded_submitted_job(0);
    match review_job(&mut job, &config, id(10), true, 1000, 103).unwrap() {
        ReviewOutcome::Approved(a, ev) => {
            assert_eq!(a.fee_amount, 50);
            assert_eq!(a.operator_receive, 950);
            assert_eq!(a.buyer_refund, 0);
            assert_eq!(ev.treasury, id(3));
            assert_eq!(ev.reason, SettlementReason::BuyerApprove);
        }
        other => panic!("expected an approval, got {:?}", other),
    }
    assert_eq!(job.status, JobStatus::Settled);
    assert_eq!(job.payout, 1000);
    assert_eq!(job.fee_amount, 50);
    assert_eq!(job.operator_receive, 950);
    assert_eq!(job.buyer_refund, 0);
    assert_eq!(job.updated_at, 103);
}

#[test]
fn approval_with_underfunded_vault_is_rejected() {
    let config = test_config();
    let mut job = funded_submitted_job(0);
    let before = job;
    assert_eq!(
        review_job(&mut job, &config, id(10), true, 999, 103),
        Err(ErrorCode::InsufficientVaultBalance)
    );
    assert_eq!(job, before);
}

#[test]
fn rejection_opens_dispute() {
    let config = test_config();
    let mut job = funded_submitted_job(0);
    match review_job(&mut job, &config, id(10), false, 1000, 103).unwrap() {
        ReviewOutcome::Rejected(ev) => {
            assert_eq!(ev.by, id(10));
            assert_eq!(ev.ts, 103);
        }
        other => panic!("expected a rejection, got {:?}", other),
    }
    assert_eq!(job.status, JobStatus::Disputed);
    assert_eq!(job.updated_at, 103);
}

#[test]
fn disabled_deadline_always_escalates() {
    let config = test_config();
    let mut job = funded_submitted_job(0);
    // deadline_at == 0: escalation can never fail for timing reasons.
    let ev = trigger_timeout(&mut job, &config, id(10), 103).unwrap();
    assert_eq!(ev.by, id(10));
    assert_eq!(job.status, JobStatus::Disputed);
}

#[test]
fn deadline_blocks_until_strictly_past() {
    let config = test_config();
    let mut job = funded_submitted_job(500);
    let before = job;
    assert_eq!(
        trigger_timeout(&mut job, &config, id(10), 499),
        Err(ErrorCode::DeadlineNotReached)
    );
    assert_eq!(job, before);
    // Exactly at the deadline is still too early.
    assert_eq!(
        trigger_timeout(&mut job, &config, id(10), 500),
        Err(ErrorCode::DeadlineNotReached)
    );
    assert_eq!(job, before);
    trigger_timeout(&mut job, &config, id(10), 501).unwrap();
    assert_eq!(job.status, JobStatus::Disputed);
}

#[test]
fn timeout_by_ops_is_allowed_by_operator_is_not() {
    let config = test_config();
    let mut job = funded_submitted_job(0);
    let before = job;
    assert_eq!(
        trigger_timeout(&mut job, &config, id(11), 103),
        Err(ErrorCode::UnauthorizedActor)
    );
    assert_eq!(job, before);
    trigger_timeout(&mut job, &config, id(2), 103).unwrap();
    assert_eq!(job.status, JobStatus::Disputed);
}

#[test]
fn full_dispute_path_settles_partial_payout() {
    // Create with a future deadline, fund, submit, escalate past the
    // deadline, and let the operations authority release 400 of 1000.
    let config = test_config();
    let (mut job, _) = create_job(id(10), id(11), 1, 1000, 500, 500, 100).unwrap();
    fund_job(&mut job, id(10), 101).unwrap();
    submit_result(&mut job, id(11), [9; 32], 102).unwrap();
    trigger_timeout(&mut job, &config, id(10), 501).unwrap();
    assert_eq!(job.status, JobStatus::Disputed);
    let (a, sev, dev) =
        resolve_dispute(&mut job, &config, id(2), 400, String::from("split"), 1000, 502).unwrap();
    assert_eq!(a.fee_amount, 20);
    assert_eq!(a.operator_receive, 380);
    assert_eq!(a.buyer_refund, 600);
    assert_eq!(sev.reason, SettlementReason::DisputeResolved);
    assert_eq!(dev.payout, 400);
    assert_eq!(dev.reason, String::from("split"));
    assert_eq!(job.status, JobStatus::Settled);
    assert_eq!(job.payout, 400);
    assert_eq!(job.fee_amount, 20);
    assert_eq!(job.operator_receive, 380);
    assert_eq!(job.buyer_refund, 600);
}

#[test]
fn zero_payout_resolution_refunds_buyer() {
    let config = test_config();
    let mut job = funded_submitted_job(0);
    review_job(&mut job, &config, id(10), false, 1000, 103).unwrap();
    let (a, _, _) =
        resolve_dispute(&mut job, &config, id(2), 0, String::from("refund"), 1000, 104).unwrap();
    assert_eq!(a.fee_amount, 0);
    assert_eq!(a.operator_receive, 0);
    assert_eq!(a.buyer_refund, 1000);
}

#[test]
fn resolution_rejects_bad_inputs() {
    let config = test_config();
    let mut job = funded_submitted_job(0);
    review_job(&mut job, &config, id(10), false, 1000, 103).unwrap();
    let before = job;
    assert_eq!(
        resolve_dispute(&mut job, &config, id(10), 400, String::from("n"), 1000, 104),
        Err(ErrorCode::UnauthorizedActor)
    );
    assert_eq!(job, before);
    assert_eq!(
        resolve_dispute(&mut job, &config, id(2), 400, "n".repeat(161), 1000, 104),
        Err(ErrorCode::ReasonTooLong)
    );
    assert_eq!(job, before);
    assert_eq!(
        resolve_dispute(&mut job, &config, id(2), 1001, String::from("n"), 1000, 104),
        Err(ErrorCode::InvalidPayout)
    );
    assert_eq!(job, before);
    // A note of exactly 160 bytes is still accepted.
    resolve_dispute(&mut job, &config, id(2), 400, "n".repeat(160), 1000, 104).unwrap();
    assert_eq!(job.status, JobStatus::Settled);
}

#[test]
fn settle_job_records_split_and_event() {
    let mut job = funded_submitted_job(0);
    let (a, ev) = settle_job(&mut job, id(3), 250, 1000, SettlementReason::DisputeResolved, 104)
        .unwrap();
    assert_eq!(a.fee_amount, 12); // 250 * 500 / 10000 = 12.5, floored
    assert_eq!(a.operator_receive, 238);
    assert_eq!(a.buyer_refund, 750);
    let expected = JobSettled {
        job_id: 1,
        buyer: id(10),
        operator: id(11),
        treasury: id(3),
        payout: 250,
        fee_amount: 12,
        operator_receive: 238,
        buyer_refund: 750,
        reason: SettlementReason::DisputeResolved,
        ts: 104,
    };
    assert_eq!(ev, expected);
    assert_eq!(job.status, JobStatus::Settled);
}
