use gated_swap::errors::PoolError;
use gated_swap::executor::assemble_hook_transfer_accounts;
use gated_swap::executor::hook_transfer_account_list;
use gated_swap::token::get_extra_account_metas_address;
use gated_swap::executor::classify_hook_failure;
use gated_swap::executor::transfer_from_pool_with_hooks;
use gated_swap::executor::transfer_from_user_with_hooks;
use gated_swap::executor::MovementOutcome;
use gated_swap::ids::ProgramId;

fn id(n: u128) -> ProgramId {
    ProgramId { lo: n, hi: 0 }
}

#[test]
fn assembly_orders_meta_then_hook_then_the_rest() {
    let source = id(1);
    let mint = id(2);
    let destination = id(3);
    let authority = id(4);
    let hook = id(50);
    let meta = id(60);
    let remaining = vec![id(70), hook, meta, id(71)];
    let accounts =
        assemble_hook_transfer_accounts(source, mint, destination, authority, hook, meta,
            &remaining);
    let order: Vec<u128> = accounts.iter().map(|p| p.lo).collect();
    // base four, then the auxiliary record, then the hook program, then the
    // rest in order, nothing twice
    assert_eq!(order, vec![1, 2, 3, 4, 60, 50, 70, 71]);
}

#[test]
fn assembly_skips_unsupplied_meta_and_hook() {
    let remaining = vec![id(70)];
    let accounts = assemble_hook_transfer_accounts(id(1), id(2), id(3), id(4), id(50), id(60),
        &remaining);
    let order: Vec<u128> = accounts.iter().map(|p| p.lo).collect();
    assert_eq!(order, vec![1, 2, 3, 4, 70]);
}

#[test]
fn assembly_does_not_repeat_base_accounts() {
    // a remaining account that repeats the asset is not appended again
    let remaining = vec![id(2), id(70)];
    let accounts = assemble_hook_transfer_accounts(id(1), id(2), id(3), id(4), id(50), id(60),
        &remaining);
    let order: Vec<u128> = accounts.iter().map(|p| p.lo).collect();
    assert_eq!(order, vec![1, 2, 3, 4, 70]);
}

#[test]
fn classification_inspects_the_failure_message() {
    assert_eq!(
        classify_hook_failure(b"ran out: insufficient compute units consumed"),
        PoolError::HookExecutionTimeout
    );
    assert_eq!(
        classify_hook_failure(b"could not resolve: invalid account data"),
        PoolError::HookAccountResolutionFailed
    );
    assert_eq!(classify_hook_failure(b"custom hook refusal"), PoolError::HookExecutionFailed);
    // exhaustion is checked before account resolution
    assert_eq!(
        classify_hook_failure(b"invalid account after insufficient compute units"),
        PoolError::HookExecutionTimeout
    );
}

#[test]
fn delivered_movements_settle_quietly() {
    assert!(transfer_from_user_with_hooks(&Some(id(50)), &MovementOutcome::Delivered).is_ok());
    assert!(transfer_from_pool_with_hooks(&None, &MovementOutcome::Delivered).is_ok());
}

#[test]
fn gated_failures_are_classified_and_plain_failures_propagate() {
    let failed = MovementOutcome::Failed(b"boom: insufficient compute units".to_vec());
    assert_eq!(
        transfer_from_user_with_hooks(&Some(id(50)), &failed).unwrap_err(),
        PoolError::HookExecutionTimeout
    );
    assert_eq!(
        transfer_from_user_with_hooks(&None, &failed).unwrap_err(),
        PoolError::TransferFailed
    );
    assert_eq!(
        transfer_from_pool_with_hooks(&Some(id(50)), &failed).unwrap_err(),
        PoolError::HookExecutionTimeout
    );
}

#[test]
fn full_account_list_carries_the_derived_auxiliary_record() {
    let hook = id(50);
    let mint = id(2);
    let meta = get_extra_account_metas_address(&mint, &hook);
    // the caller supplies the auxiliary record, the hook program and one
    // more account; the list places them after the four movement accounts
    let remaining = vec![id(70), meta, hook];
    let accounts = hook_transfer_account_list(id(1), mint, id(3), id(4), hook, &remaining);
    assert_eq!(accounts.len(), 7);
    assert_eq!(accounts[4], meta);
    assert_eq!(accounts[5], hook);
    assert_eq!(accounts[6], id(70));
}
