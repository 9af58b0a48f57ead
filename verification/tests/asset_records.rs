use gated_swap::badge::handle_create_token_badge;
use gated_swap::badge::is_token_badge_initialized;
use gated_swap::badge::TokenBadge;
use gated_swap::badge::FLAG_REQUIRES_GEO_RESTRICTIONS;
use gated_swap::badge::FLAG_REQUIRES_KYC;
use gated_swap::errors::PoolError;
use gated_swap::fee::FeeSchedule;
use gated_swap::ids::ProgramId;
use gated_swap::token::get_epoch_transfer_fee;
use gated_swap::token::get_extra_account_metas_address;
use gated_swap::token::get_token_program_flags;
use gated_swap::token::has_transfer_hook;
use gated_swap::token::is_supported_mint;
use gated_swap::token::TokenProgramFlags;

use spl_token_2022::extension::mint_close_authority::MintCloseAuthority;
use spl_token_2022::extension::transfer_fee::TransferFeeConfig;
use spl_token_2022::extension::transfer_hook::TransferHook;
use spl_token_2022::extension::BaseStateWithExtensionsMut;
use spl_token_2022::extension::ExtensionType;
use spl_token_2022::extension::PodStateWithExtensionsMut;
use spl_token_2022::pod::PodMint;
use spl_transfer_hook_interface::solana_pubkey::Pubkey;

fn id(n: u128) -> ProgramId {
    ProgramId { lo: n, hi: 0 }
}

fn id_from_bytes(bytes: [u8; 32]) -> ProgramId {
    let lo = u128::from_le_bytes(bytes[0..16].try_into().unwrap());
    let hi = u128::from_le_bytes(bytes[16..32].try_into().unwrap());
    ProgramId { lo, hi }
}

/// A raw extension-bearing asset record with a 1% capped transfer fee and a
/// hook declaration.
fn mint_with_fee_and_hook(hook_program: [u8; 32]) -> Vec<u8> {
    let size = ExtensionType::try_calculate_account_len::<PodMint>(&[
        ExtensionType::TransferFeeConfig,
        ExtensionType::TransferHook,
    ])
    .unwrap();
    let mut buffer = vec![0u8; size];
    {
        let mut state = PodStateWithExtensionsMut::<PodMint>::unpack_uninitialized(&mut buffer)
            .unwrap();
        let fee = state.init_extension::<TransferFeeConfig>(true).unwrap();
        fee.older_transfer_fee.epoch = 0u64.into();
        fee.older_transfer_fee.transfer_fee_basis_points = 100u16.into();
        fee.older_transfer_fee.maximum_fee = 5_000u64.into();
        fee.newer_transfer_fee.epoch = 10u64.into();
        fee.newer_transfer_fee.transfer_fee_basis_points = 250u16.into();
        fee.newer_transfer_fee.maximum_fee = 9_000u64.into();
        let hook = state.init_extension::<TransferHook>(true).unwrap();
        hook.program_id = Some(hook_program.into()).try_into().unwrap();
        state.base.decimals = 6;
        state.base.is_initialized = true.into();
        state.init_account_type().unwrap();
    }
    buffer
}

#[test]
fn badge_flags_and_hook_pointer() {
    let mut badge = handle_create_token_badge(true, false, id(5)).unwrap();
    assert_eq!(badge.token_mint, id(5));
    assert!(!badge.requires_kyc());
    assert!(!badge.has_hook_program());
    assert_eq!(badge.get_hook_program_id(), None);
    assert!(is_token_badge_initialized(id(5), &badge));
    assert!(!is_token_badge_initialized(id(6), &badge));

    badge.initialize_with_hook(
        id(5),
        id(50),
        FLAG_REQUIRES_KYC | FLAG_REQUIRES_GEO_RESTRICTIONS,
        1_000,
        30_000,
        2,
    );
    assert!(badge.requires_kyc());
    assert!(badge.has_geo_restrictions());
    assert!(!badge.has_volume_limits());
    assert!(badge.has_hook_program());
    assert_eq!(badge.get_hook_program_id(), Some(id(50)));
    assert_eq!(badge.min_kyc_level, 2);
}

#[test]
fn badge_creation_is_admission_checked() {
    let err = handle_create_token_badge(false, false, id(5)).unwrap_err();
    assert_eq!(err, PoolError::InvalidAdmin);
    let err = handle_create_token_badge(true, true, id(5)).unwrap_err();
    assert_eq!(err, PoolError::CannotCreateTokenBadgeOnSupportedMint);
}

#[test]
fn reinitializing_a_badge_resets_it() {
    let mut badge = TokenBadge {
        token_mint: id(5),
        hook_program_id: id(50),
        hook_config_flags: 7,
        max_daily_volume: 9,
        max_monthly_volume: 9,
        min_kyc_level: 3,
    };
    badge.initialize(id(6));
    assert_eq!(badge.token_mint, id(6));
    assert_eq!(badge.get_hook_program_id(), None);
    assert_eq!(badge.hook_config_flags, 0);
}

#[test]
fn token_program_flags_resolve_by_owner() {
    let legacy = id(100);
    assert_eq!(get_token_program_flags(&legacy, &legacy), TokenProgramFlags::TokenProgram);
    assert_eq!(get_token_program_flags(&id(101), &legacy), TokenProgramFlags::TokenProgram2022);
    assert_eq!(TokenProgramFlags::TokenProgram.to_u8(), 0);
    assert_eq!(TokenProgramFlags::TokenProgram2022.to_u8(), 1);
    assert_eq!(TokenProgramFlags::try_from_u8(0), Some(TokenProgramFlags::TokenProgram));
    assert_eq!(TokenProgramFlags::try_from_u8(1), Some(TokenProgramFlags::TokenProgram2022));
    assert_eq!(TokenProgramFlags::try_from_u8(2), None);
}

#[test]
fn fee_schedule_is_read_per_epoch_from_the_raw_record() {
    let data = mint_with_fee_and_hook([7u8; 32]);
    // before the newer schedule's epoch, the older one applies
    let fee = get_epoch_transfer_fee(false, &data, 0).unwrap();
    assert_eq!(fee, Some(FeeSchedule { transfer_fee_basis_points: 100, maximum_fee: 5_000 }));
    // from its epoch on, the newer schedule applies
    let fee = get_epoch_transfer_fee(false, &data, 10).unwrap();
    assert_eq!(fee, Some(FeeSchedule { transfer_fee_basis_points: 250, maximum_fee: 9_000 }));
    // a legacy asset has no schedule, whatever the bytes hold
    assert_eq!(get_epoch_transfer_fee(true, &data, 0).unwrap(), None);
}

#[test]
fn hook_declaration_is_read_from_the_raw_record() {
    let hook_bytes = [7u8; 32];
    let data = mint_with_fee_and_hook(hook_bytes);
    let declared = has_transfer_hook(false, &data).unwrap();
    assert_eq!(declared, Some(id_from_bytes(hook_bytes)));
    assert_eq!(has_transfer_hook(true, &data).unwrap(), None);
}

#[test]
fn unreadable_record_bytes_are_refused() {
    let err = get_epoch_transfer_fee(false, &[1, 2, 3], 0).unwrap_err();
    assert_eq!(err, PoolError::InvalidMintData);
    let err = has_transfer_hook(false, &[1, 2, 3]).unwrap_err();
    assert_eq!(err, PoolError::InvalidMintData);
    let err = is_supported_mint(false, false, &[1, 2, 3]).unwrap_err();
    assert_eq!(err, PoolError::InvalidMintData);
}

#[test]
fn supported_mint_check_reads_the_extension_set() {
    // fee and hook extensions are both supported
    let data = mint_with_fee_and_hook([7u8; 32]);
    assert_eq!(is_supported_mint(false, false, &data).unwrap(), true);

    // a close authority is not
    let size = ExtensionType::try_calculate_account_len::<PodMint>(&[
        ExtensionType::MintCloseAuthority,
    ])
    .unwrap();
    let mut buffer = vec![0u8; size];
    {
        let mut state = PodStateWithExtensionsMut::<PodMint>::unpack_uninitialized(&mut buffer)
            .unwrap();
        state.init_extension::<MintCloseAuthority>(true).unwrap();
        state.base.decimals = 6;
        state.base.is_initialized = true.into();
        state.init_account_type().unwrap();
    }
    assert_eq!(is_supported_mint(false, false, &buffer).unwrap(), false);

    // a legacy asset is always supported; the extension-bearing native
    // asset never is
    assert_eq!(is_supported_mint(true, false, &[]).unwrap(), true);
    let err = is_supported_mint(false, true, &data).unwrap_err();
    assert_eq!(err, PoolError::UnsupportNativeMintToken2022);
}

#[test]
fn auxiliary_record_address_matches_the_hook_interface_derivation() {
    let mint_bytes = [3u8; 32];
    let hook_bytes = [9u8; 32];
    let derived = get_extra_account_metas_address(
        &id_from_bytes(mint_bytes),
        &id_from_bytes(hook_bytes),
    );
    let expected = spl_transfer_hook_interface::get_extra_account_metas_address(
        &Pubkey::new_from_array(mint_bytes),
        &Pubkey::new_from_array(hook_bytes),
    );
    assert_eq!(derived, id_from_bytes(expected.to_bytes()));
}
