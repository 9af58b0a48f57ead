use gated_swap::errors::PoolError;
use gated_swap::ids::ProgramId;
use gated_swap::registry::handle_add_hook_program;
use gated_swap::registry::handle_create_hook_registry;
use gated_swap::registry::handle_remove_hook_program;
use gated_swap::registry::handle_update_hook_registry_authority;
use gated_swap::registry::validate_hook_program;
use gated_swap::registry::MAX_WHITELISTED_PROGRAMS;

fn id(n: u128) -> ProgramId {
    ProgramId { lo: n, hi: 0 }
}

#[test]
fn add_and_check_membership() {
    let authority = id(1);
    let mut registry = handle_create_hook_registry(authority, 255);
    handle_add_hook_program(&mut registry, authority, id(10)).unwrap();
    handle_add_hook_program(&mut registry, authority, id(11)).unwrap();
    assert!(registry.is_program_whitelisted(&id(10)));
    assert!(registry.is_program_whitelisted(&id(11)));
    assert!(!registry.is_program_whitelisted(&id(12)));
    assert_eq!(registry.get_whitelisted_programs().len(), 2);
}

#[test]
fn adding_beyond_capacity_fails_with_registry_full() {
    let authority = id(1);
    let mut registry = handle_create_hook_registry(authority, 0);
    for n in 0..MAX_WHITELISTED_PROGRAMS {
        handle_add_hook_program(&mut registry, authority, id(100 + n as u128)).unwrap();
    }
    assert_eq!(registry.get_whitelisted_programs().len(), 32);
    let err = handle_add_hook_program(&mut registry, authority, id(999)).unwrap_err();
    assert_eq!(err, PoolError::HookRegistryFull);
    assert_eq!(registry.get_whitelisted_programs().len(), 32);
}

#[test]
fn adding_a_listed_program_fails() {
    let authority = id(1);
    let mut registry = handle_create_hook_registry(authority, 0);
    handle_add_hook_program(&mut registry, authority, id(10)).unwrap();
    let err = handle_add_hook_program(&mut registry, authority, id(10)).unwrap_err();
    assert_eq!(err, PoolError::HookProgramAlreadyWhitelisted);
}

#[test]
fn removing_a_non_member_fails_with_not_found() {
    let authority = id(1);
    let mut registry = handle_create_hook_registry(authority, 0);
    handle_add_hook_program(&mut registry, authority, id(10)).unwrap();
    let err = handle_remove_hook_program(&mut registry, authority, id(11)).unwrap_err();
    assert_eq!(err, PoolError::HookProgramNotFound);
    assert!(registry.is_program_whitelisted(&id(10)));
}

#[test]
fn removal_preserves_relative_order() {
    let authority = id(1);
    let mut registry = handle_create_hook_registry(authority, 0);
    for n in [10u128, 11, 12, 13, 14] {
        handle_add_hook_program(&mut registry, authority, id(n)).unwrap();
    }
    handle_remove_hook_program(&mut registry, authority, id(12)).unwrap();
    let left: Vec<u128> = registry.get_whitelisted_programs().iter().map(|p| p.lo).collect();
    assert_eq!(left, vec![10, 11, 13, 14]);
    assert!(!registry.is_program_whitelisted(&id(12)));
}

#[test]
fn only_the_authority_can_mutate() {
    let authority = id(1);
    let stranger = id(2);
    let mut registry = handle_create_hook_registry(authority, 0);
    let err = handle_add_hook_program(&mut registry, stranger, id(10)).unwrap_err();
    assert_eq!(err, PoolError::InvalidAdmin);
    handle_add_hook_program(&mut registry, authority, id(10)).unwrap();
    let err = handle_remove_hook_program(&mut registry, stranger, id(10)).unwrap_err();
    assert_eq!(err, PoolError::InvalidAdmin);
    assert!(registry.is_program_whitelisted(&id(10)));
}

#[test]
fn authority_rotates_itself() {
    let old_authority = id(1);
    let new_authority = id(2);
    let mut registry = handle_create_hook_registry(old_authority, 0);
    let err =
        handle_update_hook_registry_authority(&mut registry, new_authority, new_authority)
            .unwrap_err();
    assert_eq!(err, PoolError::InvalidAdmin);
    handle_update_hook_registry_authority(&mut registry, old_authority, new_authority).unwrap();
    let err = handle_add_hook_program(&mut registry, old_authority, id(10)).unwrap_err();
    assert_eq!(err, PoolError::InvalidAdmin);
    handle_add_hook_program(&mut registry, new_authority, id(10)).unwrap();
    assert!(registry.is_program_whitelisted(&id(10)));
}

#[test]
fn validate_hook_program_checks_membership() {
    let authority = id(1);
    let mut registry = handle_create_hook_registry(authority, 0);
    handle_add_hook_program(&mut registry, authority, id(10)).unwrap();
    assert!(validate_hook_program(&id(10), &registry).is_ok());
    let err = validate_hook_program(&id(11), &registry).unwrap_err();
    assert_eq!(err, PoolError::UnauthorizedHookProgram);
}

#[test]
fn empty_registry_trusts_nothing() {
    let registry = handle_create_hook_registry(id(1), 0);
    assert!(!registry.is_program_whitelisted(&id(0)));
    assert!(!registry.is_program_whitelisted(&ProgramId { lo: 0, hi: 0 }));
}
