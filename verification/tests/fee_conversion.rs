use gated_swap::errors::PoolError;
use gated_swap::fee::calculate_transfer_fee_excluded_amount;
use gated_swap::fee::calculate_transfer_fee_included_amount;
use gated_swap::fee::FeeSchedule;

fn schedule(bp: u16, max: u64) -> Option<FeeSchedule> {
    Some(FeeSchedule { transfer_fee_basis_points: bp, maximum_fee: max })
}

#[test]
fn no_schedule_is_identity() {
    let out = calculate_transfer_fee_excluded_amount(&None, 1_000_000).unwrap();
    assert_eq!(out.amount, 1_000_000);
    assert_eq!(out.transfer_fee, 0);
    let back = calculate_transfer_fee_included_amount(&None, 1_000_000).unwrap();
    assert_eq!(back.amount, 1_000_000);
    assert_eq!(back.transfer_fee, 0);
}

#[test]
fn zero_rate_schedule_is_identity() {
    let fee = schedule(0, 5_000);
    let out = calculate_transfer_fee_excluded_amount(&fee, 123_456).unwrap();
    assert_eq!(out.amount, 123_456);
    assert_eq!(out.transfer_fee, 0);
    let back = calculate_transfer_fee_included_amount(&fee, 123_456).unwrap();
    assert_eq!(back.amount, 123_456);
    assert_eq!(back.transfer_fee, 0);
}

#[test]
fn one_percent_fee_exact_values() {
    let fee = schedule(100, u64::MAX);
    let out = calculate_transfer_fee_excluded_amount(&fee, 10_000).unwrap();
    assert_eq!(out.amount, 9_900);
    assert_eq!(out.transfer_fee, 100);
    // the fee rounds up: 1% of 50 is 0.5, assessed as 1
    let out = calculate_transfer_fee_excluded_amount(&fee, 50).unwrap();
    assert_eq!(out.amount, 49);
    assert_eq!(out.transfer_fee, 1);
}

#[test]
fn include_then_exclude_round_trip() {
    let fee = schedule(100, u64::MAX);
    let included = calculate_transfer_fee_included_amount(&fee, 9_900).unwrap();
    assert_eq!(included.amount, 10_000);
    assert_eq!(included.transfer_fee, 100);
    let back = calculate_transfer_fee_excluded_amount(&fee, included.amount).unwrap();
    assert_eq!(back.amount, 9_900);
    assert_eq!(back.transfer_fee, 100);
}

#[test]
fn exclude_then_include_round_trip() {
    let fee = schedule(100, u64::MAX);
    let excluded = calculate_transfer_fee_excluded_amount(&fee, 10_000).unwrap();
    let back = calculate_transfer_fee_included_amount(&fee, excluded.amount).unwrap();
    assert_eq!(back.amount, 10_000);
    assert_eq!(back.transfer_fee, 100);
}

#[test]
fn exclude_then_include_loses_rounded_units() {
    // 50% fee on 3 units: the fee of 2 leaves 1, and the least amount whose
    // deduction leaves 1 is 2, not 3
    let fee = schedule(5_000, u64::MAX);
    let excluded = calculate_transfer_fee_excluded_amount(&fee, 3).unwrap();
    assert_eq!(excluded.amount, 1);
    assert_eq!(excluded.transfer_fee, 2);
    let back = calculate_transfer_fee_included_amount(&fee, excluded.amount).unwrap();
    assert_eq!(back.amount, 2);
    assert_eq!(back.transfer_fee, 1);
}

#[test]
fn hundred_percent_rate_uses_maximum_fee() {
    let fee = schedule(10_000, 5_000);
    // deducting caps at the maximum fee
    let out = calculate_transfer_fee_excluded_amount(&fee, 100_000).unwrap();
    assert_eq!(out.amount, 95_000);
    assert_eq!(out.transfer_fee, 5_000);
    // the inverse substitutes the maximum fee and re-derives it exactly
    let back = calculate_transfer_fee_included_amount(&fee, 95_000).unwrap();
    assert_eq!(back.amount, 100_000);
    assert_eq!(back.transfer_fee, 5_000);
}

#[test]
fn hundred_percent_rate_small_amount_consumes_everything() {
    let fee = schedule(10_000, 5_000);
    let out = calculate_transfer_fee_excluded_amount(&fee, 4_000).unwrap();
    assert_eq!(out.amount, 0);
    assert_eq!(out.transfer_fee, 4_000);
}

#[test]
fn zero_input_included_without_consulting_schedule() {
    let fee = schedule(10_000, u64::MAX);
    let back = calculate_transfer_fee_included_amount(&fee, 0).unwrap();
    assert_eq!(back.amount, 0);
    assert_eq!(back.transfer_fee, 0);
}

#[test]
fn include_overflow_is_math_overflow() {
    let fee = schedule(10_000, u64::MAX);
    let err = calculate_transfer_fee_included_amount(&fee, u64::MAX).unwrap_err();
    assert_eq!(err, PoolError::MathOverflow);
}

#[test]
fn oversized_rate_fee_exceeding_amount_is_math_overflow() {
    // a rate above 100% can assess a fee larger than the amount itself
    let fee = schedule(20_000, u64::MAX);
    let err = calculate_transfer_fee_excluded_amount(&fee, 1).unwrap_err();
    assert_eq!(err, PoolError::MathOverflow);
}

#[test]
fn oversized_rate_inverse_is_math_overflow() {
    let fee = schedule(20_000, u64::MAX);
    let err = calculate_transfer_fee_included_amount(&fee, 10).unwrap_err();
    assert_eq!(err, PoolError::MathOverflow);
}
