//! The fee-aware amount converter: pure conversions between fee-inclusive
//! and fee-exclusive transfer amounts for assets that levy a native transfer
//! fee on every movement.
//!
//! The fee arithmetic itself is the asset host's: the library calls its
//! schedule functions behind trusted wrappers whose contracts restate, over
//! mathematical integers, exactly what the host's source computes.

use vstd::prelude::*;

use spl_token_2022::extension::transfer_fee::TransferFee;

use crate::errors::PoolError;

verus! {

/// The largest fee rate a schedule can carry: 10,000 basis points, or 100%.
pub const MAX_FEE_BASIS_POINTS: u16 = 10_000;

/// One asset's transfer-fee schedule for the current epoch: a rate in basis
/// points and an absolute per-transfer cap.
#[derive(Clone, Copy, Debug, PartialEq, Eq, Structural)]
pub struct FeeSchedule {
    /// The fee rate, in increments of 0.01% of the transferred amount.
    pub transfer_fee_basis_points: u16,
    /// The largest fee one transfer can be assessed, in asset units.
    pub maximum_fee: u64,
}

/// A fee-exclusive amount together with the fee that was taken off.
#[derive(Clone, Copy, Debug, PartialEq, Eq, Structural)]
pub struct TransferFeeExcludedAmount {
    /// What remains of the transfer once the fee is deducted.
    pub amount: u64,
    /// The deducted fee.
    pub transfer_fee: u64,
}

/// A fee-inclusive amount together with the fee that was added on.
#[derive(Clone, Copy, Debug, PartialEq, Eq, Structural)]
pub struct TransferFeeIncludedAmount {
    /// What must be sent so that the fee-exclusive amount arrives.
    pub amount: u64,
    /// The added fee.
    pub transfer_fee: u64,
}

/// Division rounded towards positive infinity, for a positive divisor.
pub open spec fn spec_ceil_div(numerator: int, denominator: int) -> int
    recommends
        denominator > 0,
{
    (numerator + denominator - 1) / denominator
}

/// What the schedule's forward fee function returns: the ceiling of
/// amount × rate / 10,000, capped at the schedule's maximum, zero for a zero
/// rate or amount, and nothing when the uncapped fee cannot be represented.
pub open spec fn spec_calculate_fee(s: FeeSchedule, pre_fee_amount: u64) -> Option<u64> {
    if s.transfer_fee_basis_points == 0 || pre_fee_amount == 0 {
        Some(0u64)
    } else {
        let raw = spec_ceil_div(
            pre_fee_amount * s.transfer_fee_basis_points,
            MAX_FEE_BASIS_POINTS as int,
        );
        if raw > u64::MAX {
            None
        } else if raw <= s.maximum_fee {
            Some(raw as u64)
        } else {
            Some(s.maximum_fee)
        }
    }
}

/// What the schedule's inverse amount function returns: the smallest
/// fee-inclusive amount whose deducted fee leaves `post_fee_amount`, with the
/// documented substitutions for a zero rate, a zero amount and a 100% rate,
/// and nothing when the amount cannot be represented.
pub open spec fn spec_calculate_pre_fee_amount(s: FeeSchedule, post_fee_amount: u64) -> Option<
    u64,
> {
    let bp = s.transfer_fee_basis_points as int;
    if bp == 0 {
        Some(post_fee_amount)
    } else if post_fee_amount == 0 {
        Some(0u64)
    } else if bp == MAX_FEE_BASIS_POINTS as int {
        if s.maximum_fee + post_fee_amount > u64::MAX {
            None
        } else {
            Some((s.maximum_fee + post_fee_amount) as u64)
        }
    } else if bp > MAX_FEE_BASIS_POINTS as int {
        None
    } else {
        let raw = spec_ceil_div(
            post_fee_amount * (MAX_FEE_BASIS_POINTS as int),
            MAX_FEE_BASIS_POINTS as int - bp,
        );
        if raw - post_fee_amount >= s.maximum_fee {
            if post_fee_amount + s.maximum_fee > u64::MAX {
                None
            } else {
                Some((post_fee_amount + s.maximum_fee) as u64)
            }
        } else if raw > u64::MAX {
            None
        } else {
            Some(raw as u64)
        }
    }
}

/// What the schedule's inverse fee function returns: the forward fee of the
/// inverse amount.
pub open spec fn spec_calculate_inverse_fee(s: FeeSchedule, post_fee_amount: u64) -> Option<u64> {
    match spec_calculate_pre_fee_amount(s, post_fee_amount) {
        None => None,
        Some(pre) => spec_calculate_fee(s, pre),
    }
}

/// Relies on the asset host's `TransferFee::calculate_fee`: the ceiling of
/// amount × rate / 10,000, capped at the schedule's maximum fee, zero for a
/// zero rate or amount, and `None` when the uncapped fee cannot be
/// represented in 64 bits.
#[verifier::external_body]
fn transfer_fee_calculate_fee(s: &FeeSchedule, pre_fee_amount: u64) -> (r: Option<u64>)
    ensures
        r == spec_calculate_fee(*s, pre_fee_amount),
{
    let fee = TransferFee {
        epoch: 0u64.into(),
        maximum_fee: s.maximum_fee.into(),
        transfer_fee_basis_points: s.transfer_fee_basis_points.into(),
    };
    fee.calculate_fee(pre_fee_amount)
}

/// Relies on the asset host's `TransferFee::calculate_inverse_fee`: the
/// forward fee of the smallest fee-inclusive amount that leaves
/// `post_fee_amount` after deduction, and `None` when that amount cannot be
/// represented.
#[verifier::external_body]
fn transfer_fee_calculate_inverse_fee(s: &FeeSchedule, post_fee_amount: u64) -> (r: Option<u64>)
    ensures
        r == spec_calculate_inverse_fee(*s, post_fee_amount),
{
    let fee = TransferFee {
        epoch: 0u64.into(),
        maximum_fee: s.maximum_fee.into(),
        transfer_fee_basis_points: s.transfer_fee_basis_points.into(),
    };
    fee.calculate_inverse_fee(post_fee_amount)
}

/// What converting a fee-inclusive amount to a fee-exclusive one returns:
/// the amount less its fee, the fee itself, and `MathOverflow` when the fee
/// cannot be represented or exceeds the amount.
pub open spec fn spec_exclude_fee(fee: Option<FeeSchedule>, amount: u64) -> Result<
    TransferFeeExcludedAmount,
    PoolError,
> {
    match fee {
        None => Ok(TransferFeeExcludedAmount { amount, transfer_fee: 0u64 }),
        Some(s) => match spec_calculate_fee(s, amount) {
            None => Err(PoolError::MathOverflow),
            Some(f) => if f > amount {
                Err(PoolError::MathOverflow)
            } else {
                Ok(TransferFeeExcludedAmount { amount: (amount - f) as u64, transfer_fee: f })
            },
        },
    }
}

/// The fee that the inverse conversion adds on: the schedule's maximum fee
/// under a 100% rate (where the inverse formula is undefined), and the
/// inverse fee otherwise.
pub open spec fn spec_include_fee_choice(s: FeeSchedule, amount_excluded: u64) -> Option<u64> {
    if s.transfer_fee_basis_points == MAX_FEE_BASIS_POINTS {
        Some(s.maximum_fee)
    } else {
        spec_calculate_inverse_fee(s, amount_excluded)
    }
}

/// What converting a fee-exclusive amount to a fee-inclusive one returns:
/// zero for a zero input without consulting the schedule; otherwise the
/// amount plus the chosen fee, `MathOverflow` when no fee or sum can be
/// represented, and `FeeInverseIsIncorrect` when the re-derived forward fee
/// disagrees with the chosen one.
pub open spec fn spec_include_fee(fee: Option<FeeSchedule>, amount: u64) -> Result<
    TransferFeeIncludedAmount,
    PoolError,
> {
    if amount == 0 {
        Ok(TransferFeeIncludedAmount { amount: 0u64, transfer_fee: 0u64 })
    } else {
        match fee {
            None => Ok(TransferFeeIncludedAmount { amount, transfer_fee: 0u64 }),
            Some(s) => match spec_include_fee_choice(s, amount) {
                None => Err(PoolError::MathOverflow),
                Some(f) => if amount + f > u64::MAX {
                    Err(PoolError::MathOverflow)
                } else if spec_calculate_fee(s, (amount + f) as u64) == Some(f) {
                    Ok(TransferFeeIncludedAmount { amount: (amount + f) as u64, transfer_fee: f })
                } else {
                    Err(PoolError::FeeInverseIsIncorrect)
                },
            },
        }
    }
}

/// Converts a fee-inclusive transfer amount into the fee-exclusive amount
/// that arrives, together with the deducted fee.
///
/// With no schedule the amount passes through unchanged with a zero fee;
/// with one, the fee is the schedule's forward fee, and `MathOverflow` is
/// reported when it cannot be represented or computed.
pub fn calculate_transfer_fee_excluded_amount(
    fee: &Option<FeeSchedule>,
    transfer_fee_included_amount: u64,
) -> (r: Result<TransferFeeExcludedAmount, PoolError>)
    ensures
        r == spec_exclude_fee(*fee, transfer_fee_included_amount),
{
    match fee {
        None => Ok(
            TransferFeeExcludedAmount { amount: transfer_fee_included_amount, transfer_fee: 0 },
        ),
        Some(s) => {
            match transfer_fee_calculate_fee(s, transfer_fee_included_amount) {
                None => Err(PoolError::MathOverflow),
                Some(f) => {
                    match transfer_fee_included_amount.checked_sub(f) {
                        None => Err(PoolError::MathOverflow),
                        Some(excluded) => Ok(
                            TransferFeeExcludedAmount { amount: excluded, transfer_fee: f },
                        ),
                    }
                },
            }
        },
    }
}

/// Converts a fee-exclusive amount into the fee-inclusive amount that must
/// be sent so that it arrives, together with the added fee.
///
/// A zero input returns zero without consulting the schedule.  A 100% rate
/// substitutes the schedule's maximum absolute fee for the undefined inverse
/// formula.  The forward fee of the result is re-derived and must equal the
/// added fee exactly; `FeeInverseIsIncorrect` is reported when it does not.
pub fn calculate_transfer_fee_included_amount(
    fee: &Option<FeeSchedule>,
    transfer_fee_excluded_amount: u64,
) -> (r: Result<TransferFeeIncludedAmount, PoolError>)
    ensures
        r == spec_include_fee(*fee, transfer_fee_excluded_amount),
{
    if transfer_fee_excluded_amount == 0 {
        return Ok(TransferFeeIncludedAmount { amount: 0, transfer_fee: 0 });
    }
    match fee {
        None => Ok(
            TransferFeeIncludedAmount { amount: transfer_fee_excluded_amount, transfer_fee: 0 },
        ),
        Some(s) => {
            let chosen: Option<u64> = if s.transfer_fee_basis_points == MAX_FEE_BASIS_POINTS {
                Some(s.maximum_fee)
            } else {
                transfer_fee_calculate_inverse_fee(s, transfer_fee_excluded_amount)
            };
            match chosen {
                None => Err(PoolError::MathOverflow),
                Some(f) => {
                    match transfer_fee_excluded_amount.checked_add(f) {
                        None => Err(PoolError::MathOverflow),
                        Some(included) => {
                            let verification = transfer_fee_calculate_fee(s, included);
                            match verification {
                                Some(v) => if v == f {
                                    Ok(
                                        TransferFeeIncludedAmount {
                                            amount: included,
                                            transfer_fee: f,
                                        },
                                    )
                                } else {
                                    Err(PoolError::FeeInverseIsIncorrect)
                                },
                                None => Err(PoolError::FeeInverseIsIncorrect),
                            }
                        },
                    }
                },
            }
        },
    }
}

/// With no schedule, or a schedule whose rate is zero, both conversions are
/// the identity and assess a zero fee.
pub proof fn lemma_zero_fee_schedule_identity(fee: Option<FeeSchedule>, amount: u64)
    requires
        fee matches Some(s) ==> s.transfer_fee_basis_points == 0,
    ensures
        spec_exclude_fee(fee, amount) == Ok::<TransferFeeExcludedAmount, PoolError>(
            TransferFeeExcludedAmount { amount, transfer_fee: 0u64 },
        ),
        spec_include_fee(fee, amount) == Ok::<TransferFeeIncludedAmount, PoolError>(
            TransferFeeIncludedAmount { amount, transfer_fee: 0u64 },
        ),
{
}

/// Converting an amount to fee-inclusive and back returns the original
/// amount and the same fee: excluding the fee is a left inverse of
/// including it, on every input where including succeeds.
pub proof fn lemma_exclude_after_include(fee: Option<FeeSchedule>, amount: u64, inc: u64, f: u64)
    requires
        spec_include_fee(fee, amount) == Ok::<TransferFeeIncludedAmount, PoolError>(
            TransferFeeIncludedAmount { amount: inc, transfer_fee: f },
        ),
    ensures
        spec_exclude_fee(fee, inc) == Ok::<TransferFeeExcludedAmount, PoolError>(
            TransferFeeExcludedAmount { amount, transfer_fee: f },
        ),
{
}

/// Converting an amount to fee-exclusive and back returns the original
/// amount, on the inputs where the deduction loses nothing: the fee left a
/// non-zero remainder (or the amount was zero), and the inverse conversion
/// re-derives exactly the deducted fee.
pub proof fn lemma_include_after_exclude(fee: Option<FeeSchedule>, amount: u64, exc: u64, f: u64)
    requires
        spec_exclude_fee(fee, amount) == Ok::<TransferFeeExcludedAmount, PoolError>(
            TransferFeeExcludedAmount { amount: exc, transfer_fee: f },
        ),
        exc != 0 || amount == 0,
        fee matches Some(s) ==> spec_include_fee_choice(s, exc) == Some(f),
    ensures
        spec_include_fee(fee, exc) == Ok::<TransferFeeIncludedAmount, PoolError>(
            TransferFeeIncludedAmount { amount, transfer_fee: f },
        ),
{
}

/// On a legitimate schedule — a rate of at most 100% — excluding the fee
/// always succeeds: the assessed fee never exceeds the amount, so the
/// conversion is owed an answer on every input.
pub proof fn lemma_exclude_fee_total(s: FeeSchedule, amount: u64)
    requires
        s.transfer_fee_basis_points <= MAX_FEE_BASIS_POINTS,
    ensures
        spec_exclude_fee(Some(s), amount) matches Ok(excluded) && excluded.transfer_fee <= amount
            && excluded.amount + excluded.transfer_fee == amount,
{
    if s.transfer_fee_basis_points == 0 || amount == 0 {
    } else {
        let a = amount as int;
        let bp = s.transfer_fee_basis_points as int;
        let raw = spec_ceil_div(a * bp, MAX_FEE_BASIS_POINTS as int);
        assert(a * bp <= a * 10000) by {
            vstd::arithmetic::mul::lemma_mul_inequality(bp, 10000, a);
        }
        assert((a * bp + 9999) / 10000 <= (a * 10000 + 9999) / 10000) by {
            vstd::arithmetic::div_mod::lemma_div_is_ordered(a * bp + 9999, a * 10000 + 9999, 10000);
        }
        assert((a * 10000 + 9999) / 10000 == a) by {
            vstd::arithmetic::div_mod::lemma_hoist_over_denominator(9999, a, 10000nat);
            vstd::arithmetic::div_mod::lemma_basic_div(9999, 10000);
        }
        assert(raw <= a);
        assert(raw >= 0) by {
            vstd::arithmetic::div_mod::lemma_div_pos_is_pos(a * bp + 9999, 10000);
            vstd::arithmetic::mul::lemma_mul_nonnegative(a, bp);
        }
    }
}

} // verus!