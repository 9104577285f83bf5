use outcome_escrow::errors::ErrorCode;
use outcome_escrow::settlement::{compute_settlement, transfer_lamports, SettlementAmounts};

#[test]
fn splits_conserve_reward_on_sample_inputs() {
    let cases: Vec<(u64, u16, u64)> = vec![
        (1000, 500, 1000),
        (1000, 500, 400),
        (1, 0, 1),
        (7, 10000, 7),
        (1_000_000, 1, 999_999),
        (u64::MAX, 0, u64::MAX),
    ];
    for (reward, fee_bps, payout) in cases {
        let a = compute_settlement(reward, fee_bps, payout).unwrap();
        assert_eq!(
            a.operator_receive as u128 + a.fee_amount as u128 + a.buyer_refund as u128,
            reward as u128
        );
        assert_eq!(a.operator_receive as u128 + a.fee_amount as u128, payout as u128);
    }
}

#[test]
fn fee_rounding_floors_toward_zero() {
    // 101 * 2500 / 10000 = 25.25, floored to 25.
    let a = compute_settlement(101, 2500, 101).unwrap();
    assert_eq!(a.fee_amount, 25);
    assert_eq!(a.operator_receive, 76);
    assert_eq!(a.buyer_refund, 0);
}

#[test]
fn full_fee_rate_takes_whole_payout() {
    let a = compute_settlement(500, 10000, 500).unwrap();
    assert_eq!(a.fee_amount, 500);
    assert_eq!(a.operator_receive, 0);
    assert_eq!(a.buyer_refund, 0);
}

#[test]
fn zero_payout_refunds_whole_reward() {
    let a = compute_settlement(12345, 777, 0).unwrap();
    assert_eq!(a.fee_amount, 0);
    assert_eq!(a.operator_receive, 0);
    assert_eq!(a.buyer_refund, 12345);
}

#[test]
fn payout_above_reward_is_rejected() {
    assert_eq!(compute_settlement(100, 500, 101), Err(ErrorCode::InvalidPayout));
}

#[test]
fn fee_numerator_overflow_is_rejected() {
    assert_eq!(compute_settlement(u64::MAX, 10000, u64::MAX), Err(ErrorCode::MathOverflow));
}

#[test]
fn oversized_fee_rate_can_overflow_the_payout() {
    // fee = 10000 * 10001 / 10000 = 10001 > payout.
    assert_eq!(compute_settlement(20000, 10001, 10000), Err(ErrorCode::MathOverflow));
    // A small payout floors the oversized rate back under the payout.
    assert_eq!(
        compute_settlement(100, 10001, 100),
        Ok(SettlementAmounts { fee_amount: 100, operator_receive: 0, buyer_refund: 0 })
    );
}

#[test]
fn transfer_moves_amount_and_conserves_total() {
    assert_eq!(transfer_lamports(1000, 25, 400), Ok((600, 425)));
}

#[test]
fn transfer_of_zero_moves_nothing() {
    // A zero leg is a no-op, not an error, even from an empty source.
    assert_eq!(transfer_lamports(0, 77, 0), Ok((0, 77)));
}

#[test]
fn transfer_beyond_source_fails() {
    assert_eq!(transfer_lamports(399, 0, 400), Err(ErrorCode::InsufficientVaultBalance));
}

#[test]
fn transfer_overflowing_destination_fails() {
    assert_eq!(transfer_lamports(10, u64::MAX, 1), Err(ErrorCode::MathOverflow));
}
