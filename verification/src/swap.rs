//! The swap settlement core: one exchange operation end to end — admission,
//! direction resolution, fee normalization, slippage and hook-hardened
//! validation, the mandatory allow-list check, the three (or four, with a
//! referral) movement legs, and the commit of the result to the pool.
//!
//! Pricing is a black box to this core: the caller hands in the priced
//! outcome for the fee-exclusive input, and this core validates and settles
//! it.  The host performs the raw balance movements and hands their
//! outcomes back; the whole operation is all-or-nothing, so the pool is
//! committed only when every step has succeeded, and is untouched on any
//! failure.

use vstd::prelude::*;

use crate::errors::PoolError;
use crate::executor::spec_execute_leg;
use crate::executor::transfer_from_pool_with_hooks;
use crate::executor::transfer_from_user_with_hooks;
use crate::executor::MovementOutcome;
use crate::fee::calculate_transfer_fee_excluded_amount;
use crate::fee::spec_exclude_fee;
use crate::fee::FeeSchedule;
use crate::fee::TransferFeeExcludedAmount;
use crate::ids::ProgramId;
use crate::pool::spec_apply_swap_result;
use crate::pool::spec_get_fee_mode;
use crate::pool::FeeMode;
use crate::pool::Pool;
use crate::pool::SwapResult;
use crate::pool::TradeDirection;
use crate::registry::HookRegistry;

verus! {

/// The extra slippage margin, in percent, that a hook-bearing swap must
/// clear on top of the caller's minimum: a defense against value extraction
/// while a hook program runs.
pub const HOOK_SLIPPAGE_TOLERANCE: u64 = 50;

/// The caller's parameters for one swap.
#[derive(Clone, Copy, Debug, PartialEq, Eq, Structural)]
pub struct SwapParameters {
    /// The fee-inclusive amount the caller pays in.
    pub amount_in: u64,
    /// The least fee-exclusive output the caller accepts.
    pub minimum_amount_out: u64,
}

/// Everything one settlement reads, as plain values: the two assets'
/// identifiers, fee schedules and hook declarations, the optional registry
/// and referral, and the admission verdict.  The host assembles this from
/// its accounts before calling [`handle_swap`].
pub struct SwapCtx {
    /// The pool's own identifier, echoed in the settlement record.
    pub pool_key: ProgramId,
    /// The asset of the caller-designated input balance.
    pub input_mint: ProgramId,
    /// The pool's first configured asset.
    pub token_a_mint: ProgramId,
    /// The pool's second configured asset.
    pub token_b_mint: ProgramId,
    /// Asset A's transfer-fee schedule for the current epoch, if any.
    pub token_a_fee: Option<FeeSchedule>,
    /// Asset B's transfer-fee schedule for the current epoch, if any.
    pub token_b_fee: Option<FeeSchedule>,
    /// The hook program asset A declares, if any.
    pub token_a_hook: Option<ProgramId>,
    /// The hook program asset B declares, if any.
    pub token_b_hook: Option<ProgramId>,
    /// The hook registry, when the caller supplied one.
    pub hook_registry: Option<HookRegistry>,
    /// Whether a referral destination was supplied.
    pub has_referral: bool,
    /// Whether the pool's access-control policy admits this caller now.
    pub can_swap: bool,
}

/// The trade direction: asset A to B when the input balance holds asset A,
/// B to A otherwise.
pub open spec fn spec_trade_direction(ctx: SwapCtx) -> TradeDirection {
    if ctx.input_mint == ctx.token_a_mint {
        TradeDirection::AtoB
    } else {
        TradeDirection::BtoA
    }
}

impl SwapCtx {
    /// Resolves the trade direction by comparing the input balance's asset
    /// against the pool's first configured asset.
    pub fn get_trade_direction(&self) -> (r: TradeDirection)
        ensures
            r == spec_trade_direction(*self),
    {
        if self.input_mint == self.token_a_mint {
            TradeDirection::AtoB
        } else {
            TradeDirection::BtoA
        }
    }
}

/// The input asset's fee schedule for this trade.
pub open spec fn spec_input_fee(ctx: SwapCtx) -> Option<FeeSchedule> {
    if spec_trade_direction(ctx) is AtoB {
        ctx.token_a_fee
    } else {
        ctx.token_b_fee
    }
}

/// The output asset's fee schedule for this trade.
pub open spec fn spec_output_fee(ctx: SwapCtx) -> Option<FeeSchedule> {
    if spec_trade_direction(ctx) is AtoB {
        ctx.token_b_fee
    } else {
        ctx.token_a_fee
    }
}

/// The hook program the input asset declares, if any.
pub open spec fn spec_input_hook(ctx: SwapCtx) -> Option<ProgramId> {
    if spec_trade_direction(ctx) is AtoB {
        ctx.token_a_hook
    } else {
        ctx.token_b_hook
    }
}

/// The hook program the output asset declares, if any.
pub open spec fn spec_output_hook(ctx: SwapCtx) -> Option<ProgramId> {
    if spec_trade_direction(ctx) is AtoB {
        ctx.token_b_hook
    } else {
        ctx.token_a_hook
    }
}

/// The hardened minimum a hook-bearing swap must clear:
/// `minimum_amount_out × (100 + tolerance) / 100`, with the product
/// saturating at the largest 64-bit value.
pub open spec fn spec_hook_minimum(minimum_amount_out: u64) -> u64 {
    let scaled: int = if minimum_amount_out * (100 + HOOK_SLIPPAGE_TOLERANCE) > u64::MAX {
        u64::MAX as int
    } else {
        minimum_amount_out * (100 + HOOK_SLIPPAGE_TOLERANCE)
    };
    (scaled / 100) as u64
}

/// The mandatory allow-list check: with no hook on either asset there is
/// nothing to check; with one, a registry must have been supplied
/// (`MissingHookRegistry`) and every declared hook program must be in it
/// (`UnauthorizedHookProgram`).
pub open spec fn spec_hook_check(
    ctx: SwapCtx,
    input_hook: Option<ProgramId>,
    output_hook: Option<ProgramId>,
) -> Result<(), PoolError> {
    if input_hook is None && output_hook is None {
        Ok(())
    } else {
        match ctx.hook_registry {
            None => Err(PoolError::MissingHookRegistry),
            Some(registry) => {
                if input_hook matches Some(h) && !registry.programs().contains(h) {
                    Err(PoolError::UnauthorizedHookProgram)
                } else if output_hook matches Some(h) && !registry.programs().contains(h) {
                    Err(PoolError::UnauthorizedHookProgram)
                } else {
                    Ok(())
                }
            },
        }
    }
}

/// The settlement record emitted for downstream observers after a
/// successful swap.
#[derive(Clone, Copy, Debug, PartialEq, Eq, Structural)]
pub struct EvtSwap {
    /// The pool the swap ran against.
    pub pool: ProgramId,
    /// The resolved trade direction.
    pub trade_direction: TradeDirection,
    /// The caller's parameters, echoed.
    pub params: SwapParameters,
    /// The priced outcome that was settled.
    pub swap_result: SwapResult,
    /// Whether a referral leg was paid.
    pub has_referral: bool,
    /// The fee-exclusive input that actually joined the reserve.
    pub actual_amount_in: u64,
    /// The timestamp the settlement ran at.
    pub current_timestamp: u64,
}

/// What one settlement returns, stage by stage, in the order the checks
/// run: admission; input fee exclusion and the zero-input check; fee-mode
/// derivation; output fee exclusion and the two slippage checks; the
/// commit's feasibility; the mandatory allow-list check; then the three
/// movement legs.  On success, the updated pool and the settlement record.
pub open spec fn spec_handle_swap(
    pool: Pool,
    ctx: SwapCtx,
    params: SwapParameters,
    swap_result: SwapResult,
    current_timestamp: u64,
    input_outcome: MovementOutcome,
    output_outcome: MovementOutcome,
    referral_outcome: MovementOutcome,
) -> Result<(Pool, EvtSwap), PoolError> {
    if !ctx.can_swap {
        Err(PoolError::PoolDisabled)
    } else {
        let direction = spec_trade_direction(ctx);
        match spec_exclude_fee(spec_input_fee(ctx), params.amount_in) {
            Err(e) => Err(e),
            Ok(excluded_in) => if excluded_in.amount == 0 {
                Err(PoolError::AmountIsZero)
            } else {
                match spec_get_fee_mode(pool.collect_fee_mode, direction, ctx.has_referral) {
                    Err(e) => Err(e),
                    Ok(fee_mode) => match spec_exclude_fee(
                        spec_output_fee(ctx),
                        swap_result.output_amount,
                    ) {
                        Err(e) => Err(e),
                        Ok(excluded_out) => if excluded_out.amount < params.minimum_amount_out {
                            Err(PoolError::ExceededSlippage)
                        } else if (spec_input_hook(ctx) is Some || spec_output_hook(ctx) is Some)
                            && excluded_out.amount < spec_hook_minimum(params.minimum_amount_out) {
                            Err(PoolError::InvalidHookSlippageTolerance)
                        } else {
                            match spec_apply_swap_result(
                                pool,
                                swap_result,
                                fee_mode,
                                direction,
                                excluded_in.amount,
                                current_timestamp,
                            ) {
                                Err(e) => Err(e),
                                Ok(updated_pool) => match spec_hook_check(
                                    ctx,
                                    spec_input_hook(ctx),
                                    spec_output_hook(ctx),
                                ) {
                                    Err(e) => Err(e),
                                    Ok(_) => match spec_execute_leg(
                                        spec_input_hook(ctx),
                                        input_outcome,
                                    ) {
                                        Err(e) => Err(e),
                                        Ok(_) => match spec_execute_leg(
                                            spec_output_hook(ctx),
                                            output_outcome,
                                        ) {
                                            Err(e) => Err(e),
                                            Ok(_) => {
                                                let referral = if ctx.has_referral {
                                                    spec_execute_leg(
                                                        if fee_mode.fees_on_token_a {
                                                            ctx.token_a_hook
                                                        } else {
                                                            ctx.token_b_hook
                                                        },
                                                        referral_outcome,
                                                    )
                                                } else {
                                                    Ok(())
                                                };
                                                match referral {
                                                    Err(e) => Err(e),
                                                    Ok(_) => Ok(
                                                        (
                                                            updated_pool,
                                                            EvtSwap {
                                                                pool: ctx.pool_key,
                                                                trade_direction: direction,
                                                                params,
                                                                swap_result,
                                                                has_referral: ctx.has_referral,
                                                                actual_amount_in:
                                                                    excluded_in.amount,
                                                                current_timestamp,
                                                            },
                                                        ),
                                                    ),
                                                }
                                            },
                                        },
                                    },
                                },
                            }
                        },
                    },
                }
            },
        }
    }
}

/// Settles one swap end to end.
///
/// The caller hands in the priced outcome of the black-box curve for the
/// fee-exclusive input, and the host-reported outcome of each movement leg
/// (the referral outcome is read only when a referral was supplied).  On
/// success the pool carries the committed result, with its dynamic-fee
/// reference refreshed to the current timestamp as part of the commit; on
/// any failure the pool is exactly as it was.
pub fn handle_swap(
    pool: &mut Pool,
    ctx: &SwapCtx,
    params: &SwapParameters,
    swap_result: &SwapResult,
    current_timestamp: u64,
    input_outcome: &MovementOutcome,
    output_outcome: &MovementOutcome,
    referral_outcome: &MovementOutcome,
) -> (r: Result<EvtSwap, PoolError>)
    requires
        old(pool).well_formed(),
    ensures
        final(pool).well_formed(),
        match spec_handle_swap(
            *old(pool),
            *ctx,
            *params,
            *swap_result,
            current_timestamp,
            *input_outcome,
            *output_outcome,
            *referral_outcome,
        ) {
            Ok(updated_and_event) => r == Ok::<EvtSwap, PoolError>(updated_and_event.1)
                && *final(pool) == updated_and_event.0,
            Err(e) => r == Err::<EvtSwap, PoolError>(e) && *final(pool) == *old(pool),
        },
{
    if !ctx.can_swap {
        return Err(PoolError::PoolDisabled);
    }
    let direction = ctx.get_trade_direction();
    let (input_fee, output_fee, input_hook, output_hook) = match direction {
        TradeDirection::AtoB => (
            &ctx.token_a_fee,
            &ctx.token_b_fee,
            &ctx.token_a_hook,
            &ctx.token_b_hook,
        ),
        TradeDirection::BtoA => (
            &ctx.token_b_fee,
            &ctx.token_a_fee,
            &ctx.token_b_hook,
            &ctx.token_a_hook,
        ),
    };
    let excluded_in: TransferFeeExcludedAmount = match calculate_transfer_fee_excluded_amount(
        input_fee,
        params.amount_in,
    ) {
        Ok(v) => v,
        Err(e) => {
            return Err(e);
        },
    };
    if excluded_in.amount == 0 {
        return Err(PoolError::AmountIsZero);
    }
    let fee_mode = match FeeMode::get_fee_mode(pool.collect_fee_mode, direction, ctx.has_referral) {
        Ok(v) => v,
        Err(e) => {
            return Err(e);
        },
    };
    let excluded_out: TransferFeeExcludedAmount = match calculate_transfer_fee_excluded_amount(
        output_fee,
        swap_result.output_amount,
    ) {
        Ok(v) => v,
        Err(e) => {
            return Err(e);
        },
    };
    if excluded_out.amount < params.minimum_amount_out {
        return Err(PoolError::ExceededSlippage);
    }
    let gated = input_hook.is_some() || output_hook.is_some();
    if gated {
        let scaled = match params.minimum_amount_out.checked_mul(100 + HOOK_SLIPPAGE_TOLERANCE) {
            Some(v) => v,
            None => u64::MAX,
        };
        let hook_minimum = scaled / 100;
        if excluded_out.amount < hook_minimum {
            return Err(PoolError::InvalidHookSlippageTolerance);
        }
    }
    let mut updated: Pool = *pool;
    match updated.apply_swap_result(
        swap_result,
        &fee_mode,
        direction,
        excluded_in.amount,
        current_timestamp,
    ) {
        Ok(_) => {},
        Err(e) => {
            return Err(e);
        },
    }
    if gated {
        match &ctx.hook_registry {
            None => {
                return Err(PoolError::MissingHookRegistry);
            },
            Some(registry) => {
                match input_hook {
                    Some(h) => {
                        if !registry.is_program_whitelisted(h) {
                            return Err(PoolError::UnauthorizedHookProgram);
                        }
                    },
                    None => {},
                }
                match output_hook {
                    Some(h) => {
                        if !registry.is_program_whitelisted(h) {
                            return Err(PoolError::UnauthorizedHookProgram);
                        }
                    },
                    None => {},
                }
            },
        }
    }
    match transfer_from_user_with_hooks(input_hook, input_outcome) {
        Ok(_) => {},
        Err(e) => {
            return Err(e);
        },
    }
    match transfer_from_pool_with_hooks(output_hook, output_outcome) {
        Ok(_) => {},
        Err(e) => {
            return Err(e);
        },
    }
    if ctx.has_referral {
        let referral_hook = if fee_mode.fees_on_token_a {
            &ctx.token_a_hook
        } else {
            &ctx.token_b_hook
        };
        match transfer_from_pool_with_hooks(referral_hook, referral_outcome) {
            Ok(_) => {},
            Err(e) => {
                return Err(e);
            },
        }
    }
    *pool = updated;
    Ok(
        EvtSwap {
            pool: ctx.pool_key,
            trade_direction: direction,
            params: *params,
            swap_result: *swap_result,
            has_referral: ctx.has_referral,
            actual_amount_in: excluded_in.amount,
            current_timestamp,
        },
    )
}

/// Every settlement that succeeds paid out at least the caller's minimum:
/// the fee-exclusive output is defined and no smaller than
/// `minimum_amount_out`.  (On failure, `handle_swap` leaves the pool
/// exactly as it was: that is part of its postcondition.)
pub proof fn lemma_swap_honors_minimum_out(
    pool: Pool,
    ctx: SwapCtx,
    params: SwapParameters,
    swap_result: SwapResult,
    current_timestamp: u64,
    input_outcome: MovementOutcome,
    output_outcome: MovementOutcome,
    referral_outcome: MovementOutcome,
)
    requires
        spec_handle_swap(
            pool,
            ctx,
            params,
            swap_result,
            current_timestamp,
            input_outcome,
            output_outcome,
            referral_outcome,
        ) is Ok,
    ensures
        spec_exclude_fee(spec_output_fee(ctx), swap_result.output_amount) matches Ok(excluded_out)
            && excluded_out.amount >= params.minimum_amount_out,
{
}

/// A settlement whose fee-exclusive output falls below the caller's minimum
/// fails with exactly the slippage error, provided the stages before the
/// check admitted the swap.
pub proof fn lemma_swap_slippage_failure(
    pool: Pool,
    ctx: SwapCtx,
    params: SwapParameters,
    swap_result: SwapResult,
    current_timestamp: u64,
    input_outcome: MovementOutcome,
    output_outcome: MovementOutcome,
    referral_outcome: MovementOutcome,
)
    requires
        ctx.can_swap,
        spec_exclude_fee(spec_input_fee(ctx), params.amount_in) matches Ok(excluded_in)
            && excluded_in.amount != 0,
        spec_get_fee_mode(pool.collect_fee_mode, spec_trade_direction(ctx), ctx.has_referral)
            is Ok,
        spec_exclude_fee(spec_output_fee(ctx), swap_result.output_amount) matches Ok(excluded_out)
            && excluded_out.amount < params.minimum_amount_out,
    ensures
        spec_handle_swap(
            pool,
            ctx,
            params,
            swap_result,
            current_timestamp,
            input_outcome,
            output_outcome,
            referral_outcome,
        ) == Err::<(Pool, EvtSwap), PoolError>(PoolError::ExceededSlippage),
{
}

/// Every settlement of a hook-bearing swap that succeeds cleared the
/// hardened minimum: the fee-exclusive output is at least
/// `minimum_amount_out × (100 + tolerance) / 100`.
pub proof fn lemma_gated_swap_hardened_minimum(
    pool: Pool,
    ctx: SwapCtx,
    params: SwapParameters,
    swap_result: SwapResult,
    current_timestamp: u64,
    input_outcome: MovementOutcome,
    output_outcome: MovementOutcome,
    referral_outcome: MovementOutcome,
)
    requires
        spec_input_hook(ctx) is Some || spec_output_hook(ctx) is Some,
        spec_handle_swap(
            pool,
            ctx,
            params,
            swap_result,
            current_timestamp,
            input_outcome,
            output_outcome,
            referral_outcome,
        ) is Ok,
    ensures
        spec_exclude_fee(spec_output_fee(ctx), swap_result.output_amount) matches Ok(excluded_out)
            && excluded_out.amount >= spec_hook_minimum(params.minimum_amount_out),
{
}

/// The hardened minimum, spelled out in basis points: where the scaled
/// minimum does not saturate, a successful hook-bearing settlement paid out
/// at least `minimum_amount_out × 1005 / 1000` — 50 basis points over the
/// caller's minimum, and more.
pub proof fn lemma_gated_swap_basis_point_margin(
    pool: Pool,
    ctx: SwapCtx,
    params: SwapParameters,
    swap_result: SwapResult,
    current_timestamp: u64,
    input_outcome: MovementOutcome,
    output_outcome: MovementOutcome,
    referral_outcome: MovementOutcome,
)
    requires
        spec_input_hook(ctx) is Some || spec_output_hook(ctx) is Some,
        params.minimum_amount_out * (100 + HOOK_SLIPPAGE_TOLERANCE) <= u64::MAX,
        spec_handle_swap(
            pool,
            ctx,
            params,
            swap_result,
            current_timestamp,
            input_outcome,
            output_outcome,
            referral_outcome,
        ) is Ok,
    ensures
        spec_exclude_fee(spec_output_fee(ctx), swap_result.output_amount) matches Ok(excluded_out)
            && excluded_out.amount >= params.minimum_amount_out * 1005 / 1000,
{
    lemma_gated_swap_hardened_minimum(
        pool,
        ctx,
        params,
        swap_result,
        current_timestamp,
        input_outcome,
        output_outcome,
        referral_outcome,
    );
    let m = params.minimum_amount_out as int;
    assert(params.minimum_amount_out * (100 + HOOK_SLIPPAGE_TOLERANCE) == 150 * m)
        by (nonlinear_arith)
        requires
            HOOK_SLIPPAGE_TOLERANCE == 50,
            m == params.minimum_amount_out as int,
    ;
    assert(0 <= (150 * m) / 100 <= 150 * m) by {
        vstd::arithmetic::div_mod::lemma_div_pos_is_pos(150 * m, 100);
        vstd::arithmetic::div_mod::lemma_div_nonincreasing(150 * m, 100);
    }
    assert(spec_hook_minimum(params.minimum_amount_out) == (150 * m) / 100);
    assert((150 * m) / 100 == m + (50 * m) / 100) by {
        vstd::arithmetic::div_mod::lemma_hoist_over_denominator(50 * m, m, 100nat);
    }
    assert((1005 * m) / 1000 == m + (5 * m) / 1000) by {
        vstd::arithmetic::div_mod::lemma_hoist_over_denominator(5 * m, m, 1000nat);
    }
    assert((50 * m) / 100 == m / 2) by {
        vstd::arithmetic::div_mod::lemma_div_denominator(50 * m, 50, 2);
        vstd::arithmetic::div_mod::lemma_div_multiples_vanish(m, 50);
    }
    assert((5 * m) / 1000 == m / 200) by {
        vstd::arithmetic::div_mod::lemma_div_denominator(5 * m, 5, 200);
        vstd::arithmetic::div_mod::lemma_div_multiples_vanish(m, 5);
    }
    assert(m / 2 >= m / 200) by {
        vstd::arithmetic::div_mod::lemma_div_is_ordered_by_denominator(m, 2, 200);
    }
}

/// The mandatory allow-list law: a settlement that succeeds while either
/// asset declares a hook program was given a registry, and every declared
/// hook program is in it.  A hook-bearing asset can never be swapped
/// without a reachable registry that trusts its hook.
pub proof fn lemma_hook_settlement_requires_whitelisting(
    pool: Pool,
    ctx: SwapCtx,
    params: SwapParameters,
    swap_result: SwapResult,
    current_timestamp: u64,
    input_outcome: MovementOutcome,
    output_outcome: MovementOutcome,
    referral_outcome: MovementOutcome,
)
    requires
        spec_input_hook(ctx) is Some || spec_output_hook(ctx) is Some,
        spec_handle_swap(
            pool,
            ctx,
            params,
            swap_result,
            current_timestamp,
            input_outcome,
            output_outcome,
            referral_outcome,
        ) is Ok,
    ensures
        ctx.hook_registry is Some,
        spec_input_hook(ctx) matches Some(h) ==> ctx.hook_registry->Some_0.programs().contains(h),
        spec_output_hook(ctx) matches Some(h) ==> ctx.hook_registry->Some_0.programs().contains(h),
{
}

} // verus!