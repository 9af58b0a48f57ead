use gated_swap::errors::PoolError;
use gated_swap::executor::MovementOutcome;
use gated_swap::fee::FeeSchedule;
use gated_swap::hook::handle_transfer_hook;
use gated_swap::ids::ProgramId;
use gated_swap::kyc::handle_initialize_user_kyc;
use gated_swap::kyc::handle_update_user_kyc;
use gated_swap::kyc::FLAG_FROZEN;
use gated_swap::pool::Pool;
use gated_swap::pool::SwapResult;
use gated_swap::pool::TradeDirection;
use gated_swap::registry::handle_add_hook_program;
use gated_swap::registry::handle_create_hook_registry;
use gated_swap::swap::handle_swap;
use gated_swap::swap::SwapCtx;
use gated_swap::swap::SwapParameters;

fn id(n: u128) -> ProgramId {
    ProgramId { lo: n, hi: 0 }
}

fn base_pool() -> Pool {
    Pool {
        token_a_reserve: 50_000_000,
        token_b_reserve: 50_000_000,
        protocol_a_fee: 0,
        protocol_b_fee: 0,
        fee_cap: 1_000_000,
        fee_reference_timestamp: 0,
        collect_fee_mode: 0,
        activation_point: 0,
        enabled: true,
    }
}

fn base_ctx() -> SwapCtx {
    SwapCtx {
        pool_key: id(9),
        input_mint: id(1),
        token_a_mint: id(1),
        token_b_mint: id(2),
        token_a_fee: None,
        token_b_fee: None,
        token_a_hook: None,
        token_b_hook: None,
        hook_registry: None,
        has_referral: false,
        can_swap: true,
    }
}

fn priced(output: u64) -> SwapResult {
    SwapResult { output_amount: output, trading_fee: 100, protocol_fee: 50, referral_fee: 10 }
}

fn delivered() -> MovementOutcome {
    MovementOutcome::Delivered
}

#[test]
fn plain_settlement_succeeds_and_commits() {
    let mut pool = base_pool();
    let params = SwapParameters { amount_in: 1_000_000, minimum_amount_out: 980_000 };
    let evt = handle_swap(
        &mut pool,
        &base_ctx(),
        &params,
        &priced(990_000),
        777,
        &delivered(),
        &delivered(),
        &delivered(),
    )
    .unwrap();
    assert_eq!(evt.actual_amount_in, 1_000_000);
    assert_eq!(evt.trade_direction, TradeDirection::AtoB);
    assert_eq!(evt.pool, id(9));
    assert!(!evt.has_referral);
    assert_eq!(evt.current_timestamp, 777);
    assert_eq!(evt.swap_result.output_amount, 990_000);
    assert_eq!(pool.token_a_reserve, 51_000_000);
    assert_eq!(pool.token_b_reserve, 49_010_000);
    // fee-collection configuration 0 collects on the output side: asset B
    assert_eq!(pool.protocol_a_fee, 0);
    assert_eq!(pool.protocol_b_fee, 50);
    assert_eq!(pool.fee_reference_timestamp, 777);
}

#[test]
fn direction_resolves_by_input_asset() {
    let mut pool = base_pool();
    let mut ctx = base_ctx();
    ctx.input_mint = id(2);
    let params = SwapParameters { amount_in: 1_000, minimum_amount_out: 0 };
    let evt = handle_swap(
        &mut pool,
        &ctx,
        &params,
        &priced(900),
        7,
        &delivered(),
        &delivered(),
        &delivered(),
    )
    .unwrap();
    assert_eq!(evt.trade_direction, TradeDirection::BtoA);
    assert_eq!(pool.token_b_reserve, 50_001_000);
    assert_eq!(pool.token_a_reserve, 49_999_100);
    // direction B to A under configuration 0 collects on asset A
    assert_eq!(pool.protocol_a_fee, 50);
}

#[test]
fn disabled_pool_is_refused() {
    let mut pool = base_pool();
    let mut ctx = base_ctx();
    ctx.can_swap = false;
    let params = SwapParameters { amount_in: 1_000, minimum_amount_out: 0 };
    let err = handle_swap(
        &mut pool,
        &ctx,
        &params,
        &priced(900),
        7,
        &delivered(),
        &delivered(),
        &delivered(),
    )
    .unwrap_err();
    assert_eq!(err, PoolError::PoolDisabled);
    assert_eq!(pool, base_pool());
}

#[test]
fn zero_fee_exclusive_input_is_refused() {
    let mut pool = base_pool();
    let params = SwapParameters { amount_in: 0, minimum_amount_out: 0 };
    let err = handle_swap(
        &mut pool,
        &base_ctx(),
        &params,
        &priced(900),
        7,
        &delivered(),
        &delivered(),
        &delivered(),
    )
    .unwrap_err();
    assert_eq!(err, PoolError::AmountIsZero);
    assert_eq!(pool, base_pool());
}

#[test]
fn input_consumed_by_its_fee_is_refused() {
    let mut pool = base_pool();
    let mut ctx = base_ctx();
    // a 100% native fee on asset A consumes a small input entirely
    ctx.token_a_fee = Some(FeeSchedule { transfer_fee_basis_points: 10_000, maximum_fee: 5_000 });
    let params = SwapParameters { amount_in: 4_000, minimum_amount_out: 0 };
    let err = handle_swap(
        &mut pool,
        &ctx,
        &params,
        &priced(900),
        7,
        &delivered(),
        &delivered(),
        &delivered(),
    )
    .unwrap_err();
    assert_eq!(err, PoolError::AmountIsZero);
    assert_eq!(pool, base_pool());
}

#[test]
fn output_below_minimum_fails_with_slippage_and_no_state_change() {
    let mut pool = base_pool();
    let params = SwapParameters { amount_in: 1_000_000, minimum_amount_out: 995_000 };
    let err = handle_swap(
        &mut pool,
        &base_ctx(),
        &params,
        &priced(990_000),
        777,
        &delivered(),
        &delivered(),
        &delivered(),
    )
    .unwrap_err();
    assert_eq!(err, PoolError::ExceededSlippage);
    assert_eq!(pool, base_pool());
}

#[test]
fn output_fee_counts_against_the_minimum() {
    let mut pool = base_pool();
    let mut ctx = base_ctx();
    // 1% native fee on the output asset: 990,000 arrives as 980,100
    ctx.token_b_fee = Some(FeeSchedule { transfer_fee_basis_points: 100, maximum_fee: u64::MAX });
    let params = SwapParameters { amount_in: 1_000_000, minimum_amount_out: 980_200 };
    let err = handle_swap(
        &mut pool,
        &ctx,
        &params,
        &priced(990_000),
        777,
        &delivered(),
        &delivered(),
        &delivered(),
    )
    .unwrap_err();
    assert_eq!(err, PoolError::ExceededSlippage);
    let params = SwapParameters { amount_in: 1_000_000, minimum_amount_out: 980_100 };
    let evt = handle_swap(
        &mut pool,
        &ctx,
        &params,
        &priced(990_000),
        777,
        &delivered(),
        &delivered(),
        &delivered(),
    )
    .unwrap();
    assert_eq!(evt.actual_amount_in, 1_000_000);
}

#[test]
fn gated_swap_needs_the_hardened_minimum() {
    let hook = id(50);
    let authority = id(3);
    let mut registry = handle_create_hook_registry(authority, 0);
    handle_add_hook_program(&mut registry, authority, hook).unwrap();
    let mut ctx = base_ctx();
    ctx.token_b_hook = Some(hook);
    ctx.hook_registry = Some(registry);
    // 990,000 >= 980,000 but below 980,000 * 150 / 100
    let mut pool = base_pool();
    let params = SwapParameters { amount_in: 1_000_000, minimum_amount_out: 980_000 };
    let err = handle_swap(
        &mut pool,
        &ctx,
        &params,
        &priced(990_000),
        777,
        &delivered(),
        &delivered(),
        &delivered(),
    )
    .unwrap_err();
    assert_eq!(err, PoolError::InvalidHookSlippageTolerance);
    assert_eq!(pool, base_pool());
    // with minimum 600,000 the hardened bound is 900,000, and 990,000 clears it
    let params = SwapParameters { amount_in: 1_000_000, minimum_amount_out: 600_000 };
    let evt = handle_swap(
        &mut pool,
        &ctx,
        &params,
        &priced(990_000),
        777,
        &delivered(),
        &delivered(),
        &delivered(),
    )
    .unwrap();
    assert_eq!(evt.actual_amount_in, 1_000_000);
    assert_eq!(pool.token_a_reserve, 51_000_000);
}

#[test]
fn gated_swap_without_registry_is_refused() {
    let mut pool = base_pool();
    let mut ctx = base_ctx();
    ctx.token_b_hook = Some(id(50));
    let params = SwapParameters { amount_in: 1_000_000, minimum_amount_out: 600_000 };
    let err = handle_swap(
        &mut pool,
        &ctx,
        &params,
        &priced(990_000),
        777,
        &delivered(),
        &delivered(),
        &delivered(),
    )
    .unwrap_err();
    assert_eq!(err, PoolError::MissingHookRegistry);
    assert_eq!(pool, base_pool());
}

#[test]
fn unlisted_hook_program_blocks_settlement_before_any_movement() {
    let authority = id(3);
    let registry = handle_create_hook_registry(authority, 0);
    let mut ctx = base_ctx();
    ctx.token_b_hook = Some(id(50));
    ctx.hook_registry = Some(registry);
    let mut pool = base_pool();
    let params = SwapParameters { amount_in: 1_000_000, minimum_amount_out: 600_000 };
    let err = handle_swap(
        &mut pool,
        &ctx,
        &params,
        &priced(990_000),
        777,
        &delivered(),
        &delivered(),
        &delivered(),
    )
    .unwrap_err();
    assert_eq!(err, PoolError::UnauthorizedHookProgram);
    assert_eq!(pool, base_pool());
}

#[test]
fn frozen_record_fails_the_hook_and_reverts_the_settlement() {
    // the hook program refuses a frozen compliance record
    let owner = id(77);
    let mut record =
        handle_initialize_user_kyc(owner, 2, b"US", b"NY", b"New York", 1_000_000).unwrap();
    handle_update_user_kyc(
        &mut record,
        None,
        None,
        Some(FLAG_FROZEN),
        None,
        None,
        None,
        None,
        1_000_001,
    )
    .unwrap();
    let verdict = handle_transfer_hook(&record, owner, &[]).unwrap_err();
    assert_eq!(verdict, PoolError::UserAccountFrozen);

    // the host reports the failed gated movement; the settlement classifies
    // it and reverts, including the reserve commit
    let hook = id(50);
    let authority = id(3);
    let mut registry = handle_create_hook_registry(authority, 0);
    handle_add_hook_program(&mut registry, authority, hook).unwrap();
    let mut ctx = base_ctx();
    ctx.token_a_hook = Some(hook);
    ctx.hook_registry = Some(registry);
    let mut pool = base_pool();
    let params = SwapParameters { amount_in: 1_000_000, minimum_amount_out: 600_000 };
    let failed = MovementOutcome::Failed(b"hook program refused: account frozen".to_vec());
    let err = handle_swap(
        &mut pool,
        &ctx,
        &params,
        &priced(990_000),
        777,
        &failed,
        &delivered(),
        &delivered(),
    )
    .unwrap_err();
    assert_eq!(err, PoolError::HookExecutionFailed);
    assert_eq!(pool, base_pool());
}

#[test]
fn gated_movement_failures_are_classified() {
    let hook = id(50);
    let authority = id(3);
    let mut registry = handle_create_hook_registry(authority, 0);
    handle_add_hook_program(&mut registry, authority, hook).unwrap();
    let mut ctx = base_ctx();
    ctx.token_b_hook = Some(hook);
    ctx.hook_registry = Some(registry);
    let params = SwapParameters { amount_in: 1_000_000, minimum_amount_out: 600_000 };

    let mut pool = base_pool();
    let timeout =
        MovementOutcome::Failed(b"program halted: insufficient compute units left".to_vec());
    let err = handle_swap(
        &mut pool,
        &ctx,
        &params,
        &priced(990_000),
        777,
        &delivered(),
        &timeout,
        &delivered(),
    )
    .unwrap_err();
    assert_eq!(err, PoolError::HookExecutionTimeout);
    assert_eq!(pool, base_pool());

    let resolution = MovementOutcome::Failed(b"invalid account supplied for hook".to_vec());
    let err = handle_swap(
        &mut pool,
        &ctx,
        &params,
        &priced(990_000),
        777,
        &delivered(),
        &resolution,
        &delivered(),
    )
    .unwrap_err();
    assert_eq!(err, PoolError::HookAccountResolutionFailed);
    assert_eq!(pool, base_pool());
}

#[test]
fn plain_movement_failure_propagates_as_transfer_failure() {
    let mut pool = base_pool();
    let params = SwapParameters { amount_in: 1_000_000, minimum_amount_out: 600_000 };
    let failed = MovementOutcome::Failed(b"insufficient funds".to_vec());
    let err = handle_swap(
        &mut pool,
        &base_ctx(),
        &params,
        &priced(990_000),
        777,
        &failed,
        &delivered(),
        &delivered(),
    )
    .unwrap_err();
    assert_eq!(err, PoolError::TransferFailed);
    assert_eq!(pool, base_pool());
}

#[test]
fn referral_leg_failure_reverts_the_settlement() {
    let mut ctx = base_ctx();
    ctx.has_referral = true;
    let mut pool = base_pool();
    let params = SwapParameters { amount_in: 1_000_000, minimum_amount_out: 600_000 };
    let failed = MovementOutcome::Failed(b"destination closed".to_vec());
    let err = handle_swap(
        &mut pool,
        &ctx,
        &params,
        &priced(990_000),
        777,
        &delivered(),
        &delivered(),
        &failed,
    )
    .unwrap_err();
    assert_eq!(err, PoolError::TransferFailed);
    assert_eq!(pool, base_pool());
    // without a referral destination the third outcome is not consulted
    ctx.has_referral = false;
    let evt = handle_swap(
        &mut pool,
        &ctx,
        &params,
        &priced(990_000),
        777,
        &delivered(),
        &delivered(),
        &failed,
    )
    .unwrap();
    assert!(!evt.has_referral);
}

#[test]
fn draining_output_reserve_is_math_overflow() {
    let mut pool = base_pool();
    pool.token_b_reserve = 100;
    let saved = pool;
    let params = SwapParameters { amount_in: 1_000_000, minimum_amount_out: 0 };
    let err = handle_swap(
        &mut pool,
        &base_ctx(),
        &params,
        &priced(990_000),
        777,
        &delivered(),
        &delivered(),
        &delivered(),
    )
    .unwrap_err();
    assert_eq!(err, PoolError::MathOverflow);
    assert_eq!(pool, saved);
}

#[test]
fn fee_accrual_beyond_the_cap_is_math_overflow() {
    let mut pool = base_pool();
    pool.protocol_b_fee = 1_000_000;
    let saved = pool;
    let params = SwapParameters { amount_in: 1_000_000, minimum_amount_out: 0 };
    let err = handle_swap(
        &mut pool,
        &base_ctx(),
        &params,
        &priced(990_000),
        777,
        &delivered(),
        &delivered(),
        &delivered(),
    )
    .unwrap_err();
    assert_eq!(err, PoolError::MathOverflow);
    assert_eq!(pool, saved);
}

#[test]
fn unknown_fee_collection_configuration_is_refused() {
    let mut pool = base_pool();
    pool.collect_fee_mode = 7;
    let saved = pool;
    let params = SwapParameters { amount_in: 1_000_000, minimum_amount_out: 0 };
    let err = handle_swap(
        &mut pool,
        &base_ctx(),
        &params,
        &priced(990_000),
        777,
        &delivered(),
        &delivered(),
        &delivered(),
    )
    .unwrap_err();
    assert_eq!(err, PoolError::InvalidCollectFeeMode);
    assert_eq!(pool, saved);
}

#[test]
fn referral_fee_moves_in_the_fee_modes_stored_asset() {
    // configuration 1 collects in asset B always; with direction B to A the
    // fee side is the input leg, whose hook declaration governs the
    // referral movement
    let hook = id(50);
    let authority = id(3);
    let mut registry = handle_create_hook_registry(authority, 0);
    handle_add_hook_program(&mut registry, authority, hook).unwrap();
    let mut ctx = base_ctx();
    ctx.input_mint = id(2);
    ctx.token_b_hook = Some(hook);
    ctx.hook_registry = Some(registry);
    ctx.has_referral = true;
    let mut pool = base_pool();
    pool.collect_fee_mode = 1;
    let params = SwapParameters { amount_in: 1_000_000, minimum_amount_out: 600_000 };
    let referral_failed =
        MovementOutcome::Failed(b"hook stopped referral: insufficient compute units".to_vec());
    let err = handle_swap(
        &mut pool,
        &ctx,
        &params,
        &priced(990_000),
        777,
        &delivered(),
        &delivered(),
        &referral_failed,
    )
    .unwrap_err();
    // the referral leg pays asset B, which declares a hook, so the failure
    // is classified as a hook failure
    assert_eq!(err, PoolError::HookExecutionTimeout);
}

#[test]
fn fee_collection_in_asset_b_only() {
    // configuration 1 accrues the protocol fee in asset B for both
    // directions
    let mut pool = base_pool();
    pool.collect_fee_mode = 1;
    let params = SwapParameters { amount_in: 1_000_000, minimum_amount_out: 0 };
    handle_swap(
        &mut pool,
        &base_ctx(),
        &params,
        &priced(990_000),
        7,
        &delivered(),
        &delivered(),
        &delivered(),
    )
    .unwrap();
    assert_eq!(pool.protocol_a_fee, 0);
    assert_eq!(pool.protocol_b_fee, 50);
}

#[test]
fn pre_swap_refresh_moves_only_the_fee_reference() {
    let mut pool = base_pool();
    pool.update_pre_swap(4_242);
    let mut expected = base_pool();
    expected.fee_reference_timestamp = 4_242;
    assert_eq!(pool, expected);
}
