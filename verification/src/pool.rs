//! The pool: two asset reserves, a fee configuration, accrued protocol
//! fees and a dynamic-fee reference timestamp.  The swap settlement core is
//! its only mutator.

use vstd::prelude::*;

use crate::errors::PoolError;

verus! {

/// The direction of one trade, by which reserve the input joins.
#[derive(Clone, Copy, Debug, PartialEq, Eq, Structural)]
pub enum TradeDirection {
    /// The caller pays asset A and receives asset B.
    AtoB,
    /// The caller pays asset B and receives asset A.
    BtoA,
}

/// The fee-collection configuration that takes fees from whichever side a
/// trade leaves them on.
pub const COLLECT_FEE_MODE_BOTH_TOKENS: u8 = 0;

/// The fee-collection configuration that takes fees in asset B only.
pub const COLLECT_FEE_MODE_ONLY_B: u8 = 1;

/// Which side of a trade collects protocol fees, derived once per swap from
/// the pool's configuration, the direction, and whether a referral
/// destination was supplied.
#[derive(Clone, Copy, Debug, PartialEq, Eq, Structural)]
pub struct FeeMode {
    /// Whether fees are taken from the input side of the trade.
    pub fees_on_input: bool,
    /// Whether the asset that carries the fees is asset A.  The referral
    /// leg pays in exactly this asset; it is never recomputed from the
    /// direction.
    pub fees_on_token_a: bool,
    /// Whether a referral destination was supplied.
    pub has_referral: bool,
}

/// What deriving the fee mode returns for each configuration:
///
/// - under [`COLLECT_FEE_MODE_BOTH_TOKENS`], fees stay on the output side,
///   so the fee-carrying asset is A exactly when the trade pays out A;
/// - under [`COLLECT_FEE_MODE_ONLY_B`], fees are always carried by asset B,
///   taken from the input side exactly when B is the input;
/// - any other configuration byte is refused with `InvalidCollectFeeMode`.
pub open spec fn spec_get_fee_mode(
    collect_fee_mode: u8,
    trade_direction: TradeDirection,
    has_referral: bool,
) -> Result<FeeMode, PoolError> {
    if collect_fee_mode == COLLECT_FEE_MODE_BOTH_TOKENS {
        Ok(
            FeeMode {
                fees_on_input: false,
                fees_on_token_a: trade_direction is BtoA,
                has_referral,
            },
        )
    } else if collect_fee_mode == COLLECT_FEE_MODE_ONLY_B {
        Ok(
            FeeMode {
                fees_on_input: trade_direction is BtoA,
                fees_on_token_a: false,
                has_referral,
            },
        )
    } else {
        Err(PoolError::InvalidCollectFeeMode)
    }
}

impl FeeMode {
    /// Derives which side of the trade collects protocol fees.
    pub fn get_fee_mode(
        collect_fee_mode: u8,
        trade_direction: TradeDirection,
        has_referral: bool,
    ) -> (r: Result<FeeMode, PoolError>)
        ensures
            r == spec_get_fee_mode(collect_fee_mode, trade_direction, has_referral),
    {
        if collect_fee_mode == COLLECT_FEE_MODE_BOTH_TOKENS {
            Ok(
                FeeMode {
                    fees_on_input: false,
                    fees_on_token_a: matches!(trade_direction, TradeDirection::BtoA),
                    has_referral,
                },
            )
        } else if collect_fee_mode == COLLECT_FEE_MODE_ONLY_B {
            Ok(
                FeeMode {
                    fees_on_input: matches!(trade_direction, TradeDirection::BtoA),
                    fees_on_token_a: false,
                    has_referral,
                },
            )
        } else {
            Err(PoolError::InvalidCollectFeeMode)
        }
    }
}

/// What the pricing curve returned for one swap: the output amount and the
/// fee breakdown.  The curve itself is a black box to the settlement core.
#[derive(Clone, Copy, Debug, PartialEq, Eq, Structural)]
pub struct SwapResult {
    /// The gross output amount, before the output asset's native transfer
    /// fee.
    pub output_amount: u64,
    /// The fee retained by the pool for liquidity providers.
    pub trading_fee: u64,
    /// The fee accrued to the protocol.
    pub protocol_fee: u64,
    /// The share of the fee owed to the referral destination.
    pub referral_fee: u64,
}

/// A pool's long-lived state.
#[derive(Clone, Copy, Debug, PartialEq, Eq, Structural)]
pub struct Pool {
    /// Units of asset A the pool holds.
    pub token_a_reserve: u64,
    /// Units of asset B the pool holds.
    pub token_b_reserve: u64,
    /// Protocol fees accrued in asset A, not yet withdrawn.
    pub protocol_a_fee: u64,
    /// Protocol fees accrued in asset B, not yet withdrawn.
    pub protocol_b_fee: u64,
    /// The configured cap on accrued protocol fees, per asset.
    pub fee_cap: u64,
    /// The reference timestamp the dynamic fee schedule measures elapsed
    /// time from; refreshed on every swap.
    pub fee_reference_timestamp: u64,
    /// Which side of a trade collects protocol fees (see
    /// [`spec_get_fee_mode`]).
    pub collect_fee_mode: u8,
    /// The activation point the pricing curve selects its regime by.
    pub activation_point: u64,
    /// Whether the pool's access-control policy admits swaps at all.
    pub enabled: bool,
}

impl Pool {
    /// The pool's invariant: fee accrual never exceeds the configured cap.
    pub open spec fn well_formed(&self) -> bool {
        &&& self.protocol_a_fee <= self.fee_cap
        &&& self.protocol_b_fee <= self.fee_cap
    }

    /// Refreshes the dynamic-fee reference timestamp, so the fee schedule
    /// reflects elapsed time since the last swap.
    pub fn update_pre_swap(&mut self, current_timestamp: u64)
        ensures
            *final(self) == (Pool { fee_reference_timestamp: current_timestamp, ..*old(self) }),
    {
        self.fee_reference_timestamp = current_timestamp;
    }
}

/// What committing a swap result does to the pool: the fee-exclusive input
/// joins the input-side reserve, the gross output leaves the output-side
/// reserve, the protocol fee accrues to the fee-carrying side, and the fee
/// reference timestamp becomes the current one.  `MathOverflow` is reported
/// when a reserve would overflow or underflow, or when the accrual would
/// pass the configured cap; the pool is then unchanged.
pub open spec fn spec_apply_swap_result(
    pool: Pool,
    result: SwapResult,
    fee_mode: FeeMode,
    trade_direction: TradeDirection,
    actual_amount_in: u64,
    current_timestamp: u64,
) -> Result<Pool, PoolError> {
    let (in_reserve, out_reserve) = if trade_direction is AtoB {
        (pool.token_a_reserve, pool.token_b_reserve)
    } else {
        (pool.token_b_reserve, pool.token_a_reserve)
    };
    let fee_target = if fee_mode.fees_on_token_a {
        pool.protocol_a_fee
    } else {
        pool.protocol_b_fee
    };
    if in_reserve + actual_amount_in > u64::MAX {
        Err(PoolError::MathOverflow)
    } else if out_reserve < result.output_amount {
        Err(PoolError::MathOverflow)
    } else if fee_target + result.protocol_fee > pool.fee_cap {
        Err(PoolError::MathOverflow)
    } else {
        let new_in = (in_reserve + actual_amount_in) as u64;
        let new_out = (out_reserve - result.output_amount) as u64;
        let new_fee = (fee_target + result.protocol_fee) as u64;
        Ok(
            Pool {
                token_a_reserve: if trade_direction is AtoB {
                    new_in
                } else {
                    new_out
                },
                token_b_reserve: if trade_direction is AtoB {
                    new_out
                } else {
                    new_in
                },
                protocol_a_fee: if fee_mode.fees_on_token_a {
                    new_fee
                } else {
                    pool.protocol_a_fee
                },
                protocol_b_fee: if fee_mode.fees_on_token_a {
                    pool.protocol_b_fee
                } else {
                    new_fee
                },
                fee_reference_timestamp: current_timestamp,
                ..pool
            },
        )
    }
}

impl Pool {
    /// Commits a computed swap result to the pool's reserves and accrued
    /// fees, and refreshes the fee reference timestamp.
    ///
    /// On `MathOverflow` the pool is unchanged; the commit is
    /// all-or-nothing.
    pub fn apply_swap_result(
        &mut self,
        result: &SwapResult,
        fee_mode: &FeeMode,
        trade_direction: TradeDirection,
        actual_amount_in: u64,
        current_timestamp: u64,
    ) -> (r: Result<(), PoolError>)
        requires
            old(self).well_formed(),
        ensures
            final(self).well_formed(),
            match spec_apply_swap_result(
                *old(self),
                *result,
                *fee_mode,
                trade_direction,
                actual_amount_in,
                current_timestamp,
            ) {
                Ok(updated) => r == Ok::<(), PoolError>(()) && *final(self) == updated,
                Err(e) => r == Err::<(), PoolError>(e) && *final(self) == *old(self),
            },
    {
        let (in_reserve, out_reserve) = match trade_direction {
            TradeDirection::AtoB => (self.token_a_reserve, self.token_b_reserve),
            TradeDirection::BtoA => (self.token_b_reserve, self.token_a_reserve),
        };
        let fee_target = if fee_mode.fees_on_token_a {
            self.protocol_a_fee
        } else {
            self.protocol_b_fee
        };
        let new_in = match in_reserve.checked_add(actual_amount_in) {
            Some(v) => v,
            None => {
                return Err(PoolError::MathOverflow);
            },
        };
        let new_out = match out_reserve.checked_sub(result.output_amount) {
            Some(v) => v,
            None => {
                return Err(PoolError::MathOverflow);
            },
        };
        let new_fee = match fee_target.checked_add(result.protocol_fee) {
            Some(v) => v,
            None => {
                return Err(PoolError::MathOverflow);
            },
        };
        if new_fee > self.fee_cap {
            return Err(PoolError::MathOverflow);
        }
        match trade_direction {
            TradeDirection::AtoB => {
                self.token_a_reserve = new_in;
                self.token_b_reserve = new_out;
            },
            TradeDirection::BtoA => {
                self.token_b_reserve = new_in;
                self.token_a_reserve = new_out;
            },
        }
        if fee_mode.fees_on_token_a {
            self.protocol_a_fee = new_fee;
        } else {
            self.protocol_b_fee = new_fee;
        }
        self.fee_reference_timestamp = current_timestamp;
        Ok(())
    }
}

} // verus!
