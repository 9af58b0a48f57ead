//! What the library reads from an asset's on-chain record through the asset
//! host: which program owns the asset, its transfer-fee schedule for the
//! current epoch, its declared hook program, its extension set, and the
//! derived address of a hook's auxiliary-configuration record.
//!
//! Each host call stands behind a trusted wrapper; everything around the
//! calls is verified.

use vstd::prelude::*;

use spl_token_2022::extension::transfer_fee::TransferFeeConfig;
use spl_token_2022::extension::transfer_hook;
use spl_token_2022::extension::BaseStateWithExtensions;
use spl_token_2022::extension::StateWithExtensions;
use spl_token_2022::state::Mint;
use spl_transfer_hook_interface::solana_pubkey::Pubkey;

use crate::errors::PoolError;
use crate::fee::FeeSchedule;
use crate::ids::ProgramId;

verus! {

/// The extension code of a transfer-fee configuration.
pub const EXTENSION_TRANSFER_FEE_CONFIG: u16 = 1;

/// The extension code of a hook (transfer-hook) declaration.
pub const EXTENSION_TRANSFER_HOOK: u16 = 14;

/// The extension code of a metadata pointer.
pub const EXTENSION_METADATA_POINTER: u16 = 18;

/// The extension code of embedded metadata.
pub const EXTENSION_TOKEN_METADATA: u16 = 19;

/// Which of the two asset programs manages an asset.
#[derive(Clone, Copy, Debug, PartialEq, Eq, Structural)]
pub enum TokenProgramFlags {
    /// The legacy asset program, without extensions.
    TokenProgram,
    /// The extension-bearing asset program.
    TokenProgram2022,
}

impl TokenProgramFlags {
    /// The flag's wire value: 0 for the legacy program, 1 for the
    /// extension-bearing one.
    pub fn to_u8(&self) -> (r: u8)
        ensures
            r == (match *self {
                TokenProgramFlags::TokenProgram => 0u8,
                TokenProgramFlags::TokenProgram2022 => 1u8,
            }),
    {
        match self {
            TokenProgramFlags::TokenProgram => 0,
            TokenProgramFlags::TokenProgram2022 => 1,
        }
    }

    /// The flag a wire value denotes, if any.
    pub fn try_from_u8(value: u8) -> (r: Option<TokenProgramFlags>)
        ensures
            r == (if value == 0 {
                Some(TokenProgramFlags::TokenProgram)
            } else if value == 1 {
                Some(TokenProgramFlags::TokenProgram2022)
            } else {
                None::<TokenProgramFlags>
            }),
    {
        if value == 0 {
            Some(TokenProgramFlags::TokenProgram)
        } else if value == 1 {
            Some(TokenProgramFlags::TokenProgram2022)
        } else {
            None
        }
    }
}

/// Which asset program manages the asset whose record is owned by
/// `mint_owner`: the legacy one exactly when the owner is the legacy asset
/// program's identifier.
pub fn get_token_program_flags(
    mint_owner: &ProgramId,
    legacy_token_program: &ProgramId,
) -> (r: TokenProgramFlags)
    ensures
        r == (if mint_owner == legacy_token_program {
            TokenProgramFlags::TokenProgram
        } else {
            TokenProgramFlags::TokenProgram2022
        }),
{
    if mint_owner == legacy_token_program {
        TokenProgramFlags::TokenProgram
    } else {
        TokenProgramFlags::TokenProgram2022
    }
}

/// The transfer-fee schedule that the asset host reads from a raw asset
/// record for a given epoch: the rate and cap of the epoch's fee, `Some(None)`
/// for a record without a fee configuration, and `None` for bytes that do
/// not parse as an asset record.  A function of the bytes and the epoch
/// alone.
pub uninterp spec fn transfer_fee_snapshot_of(mint_data: Seq<u8>, epoch: u64) -> Option<
    Option<(u16, u64)>,
>;

/// Relies on the asset host's `StateWithExtensions::<Mint>::unpack`,
/// `get_extension::<TransferFeeConfig>` and `TransferFeeConfig::get_epoch_fee`:
/// the epoch's fee snapshot is a function of the record bytes and the epoch
/// alone.
#[verifier::external_body]
fn unpack_transfer_fee_snapshot(mint_data: &[u8], epoch: u64) -> (r: Result<
    Option<FeeSchedule>,
    PoolError,
>)
    ensures
        match transfer_fee_snapshot_of(mint_data@, epoch) {
            None => r == Err::<Option<FeeSchedule>, PoolError>(PoolError::InvalidMintData),
            Some(None) => r == Ok::<Option<FeeSchedule>, PoolError>(None),
            Some(Some(snapshot)) => r == Ok::<Option<FeeSchedule>, PoolError>(
                Some(
                    FeeSchedule {
                        transfer_fee_basis_points: snapshot.0,
                        maximum_fee: snapshot.1,
                    },
                ),
            ),
        },
{
    let state =
        StateWithExtensions::<Mint>::unpack(mint_data).map_err(|_| PoolError::InvalidMintData)?;
    match state.get_extension::<TransferFeeConfig>() {
        Ok(config) => {
            let fee = config.get_epoch_fee(epoch);
            let basis_points = u16::from(fee.transfer_fee_basis_points);
            let maximum_fee = u64::from(fee.maximum_fee);
            Ok(Some(FeeSchedule { transfer_fee_basis_points: basis_points, maximum_fee }))
        },
        Err(_) => Ok(None),
    }
}

/// What reading an asset's fee schedule returns: nothing for a legacy
/// asset (the legacy program has no fee extension), and the host's epoch
/// snapshot otherwise.
pub open spec fn spec_epoch_transfer_fee(
    mint_owner_is_legacy: bool,
    mint_data: Seq<u8>,
    epoch: u64,
) -> Result<Option<FeeSchedule>, PoolError> {
    if mint_owner_is_legacy {
        Ok(None)
    } else {
        match transfer_fee_snapshot_of(mint_data, epoch) {
            None => Err(PoolError::InvalidMintData),
            Some(None) => Ok(None),
            Some(Some(snapshot)) => Ok(
                Some(
                    FeeSchedule {
                        transfer_fee_basis_points: snapshot.0,
                        maximum_fee: snapshot.1,
                    },
                ),
            ),
        }
    }
}

/// Reads the asset's transfer-fee schedule for the given epoch from its raw
/// record bytes; a legacy asset has none.
pub fn get_epoch_transfer_fee(
    mint_owner_is_legacy: bool,
    mint_data: &[u8],
    epoch: u64,
) -> (r: Result<Option<FeeSchedule>, PoolError>)
    ensures
        r == spec_epoch_transfer_fee(mint_owner_is_legacy, mint_data@, epoch),
{
    if mint_owner_is_legacy {
        return Ok(None);
    }
    unpack_transfer_fee_snapshot(mint_data, epoch)
}

/// The hook program that the asset host reads from a raw asset record:
/// the declared program's identifier words, `Some(None)` for a record
/// without one, and `None` for bytes that do not parse as an asset record.
/// A function of the bytes alone.
pub uninterp spec fn transfer_hook_program_of(mint_data: Seq<u8>) -> Option<
    Option<(u128, u128)>,
>;

/// Relies on the asset host's `StateWithExtensions::<Mint>::unpack` and
/// `transfer_hook::get_program_id`: the declared hook program is a function
/// of the record bytes alone.
#[verifier::external_body]
fn unpack_transfer_hook_program(mint_data: &[u8]) -> (r: Result<Option<ProgramId>, PoolError>)
    ensures
        match transfer_hook_program_of(mint_data@) {
            None => r == Err::<Option<ProgramId>, PoolError>(PoolError::InvalidMintData),
            Some(None) => r == Ok::<Option<ProgramId>, PoolError>(None),
            Some(Some(words)) => r == Ok::<Option<ProgramId>, PoolError>(
                Some(ProgramId { lo: words.0, hi: words.1 }),
            ),
        },
{
    let state =
        StateWithExtensions::<Mint>::unpack(mint_data).map_err(|_| PoolError::InvalidMintData)?;
    match transfer_hook::get_program_id(&state) {
        Some(address) => {
            let bytes = address.to_bytes();
            let lo = u128::from_le_bytes(bytes[0..16].try_into().unwrap());
            let hi = u128::from_le_bytes(bytes[16..32].try_into().unwrap());
            Ok(Some(ProgramId { lo, hi }))
        },
        None => Ok(None),
    }
}

/// What reading an asset's hook declaration returns: nothing for a legacy
/// asset (the legacy program has no hook extension), and the host's reading
/// otherwise.
pub open spec fn spec_transfer_hook(mint_owner_is_legacy: bool, mint_data: Seq<u8>) -> Result<
    Option<ProgramId>,
    PoolError,
> {
    if mint_owner_is_legacy {
        Ok(None)
    } else {
        match transfer_hook_program_of(mint_data) {
            None => Err(PoolError::InvalidMintData),
            Some(None) => Ok(None),
            Some(Some(words)) => Ok(Some(ProgramId { lo: words.0, hi: words.1 })),
        }
    }
}

/// Reads the hook program the asset declares, if any, from its raw record
/// bytes; a legacy asset declares none.
pub fn has_transfer_hook(mint_owner_is_legacy: bool, mint_data: &[u8]) -> (r: Result<
    Option<ProgramId>,
    PoolError,
>)
    ensures
        r == spec_transfer_hook(mint_owner_is_legacy, mint_data@),
{
    if mint_owner_is_legacy {
        return Ok(None);
    }
    unpack_transfer_hook_program(mint_data)
}

/// The extension codes that the asset host reads from a raw asset record,
/// and `None` for bytes that do not parse as an asset record.  A function
/// of the bytes alone.
pub uninterp spec fn extension_types_of(mint_data: Seq<u8>) -> Option<Seq<u16>>;

/// Relies on the asset host's `StateWithExtensions::<Mint>::unpack` and
/// `get_extension_types`: the extension set is a function of the record
/// bytes alone.
#[verifier::external_body]
fn unpack_extension_types(mint_data: &[u8]) -> (r: Result<Vec<u16>, PoolError>)
    ensures
        match extension_types_of(mint_data@) {
            None => r == Err::<Vec<u16>, PoolError>(PoolError::InvalidMintData),
            Some(codes) => r matches Ok(v) && v@ == codes,
        },
{
    let state =
        StateWithExtensions::<Mint>::unpack(mint_data).map_err(|_| PoolError::InvalidMintData)?;
    let types = state.get_extension_types().map_err(|_| PoolError::InvalidMintData)?;
    Ok(types.into_iter().map(|t| u16::from(t)).collect())
}

/// Whether one extension code is one the exchange can handle: the
/// transfer-fee configuration, the metadata pointer, embedded metadata, or
/// the hook declaration.
pub open spec fn spec_supported_extension_code(code: u16) -> bool {
    ||| code == EXTENSION_TRANSFER_FEE_CONFIG
    ||| code == EXTENSION_METADATA_POINTER
    ||| code == EXTENSION_TOKEN_METADATA
    ||| code == EXTENSION_TRANSFER_HOOK
}

/// Whether every extension code is one the exchange can handle.
pub open spec fn spec_supported_extensions(codes: Seq<u16>) -> bool {
    forall|k: int| 0 <= k < codes.len() ==> spec_supported_extension_code(#[trigger] codes[k])
}

/// What the supported-asset check returns: a legacy asset is always
/// supported; the extension-bearing program's native asset is refused; any
/// other asset is supported exactly when each of its extensions is one the
/// exchange can handle.
pub open spec fn spec_is_supported_mint(
    mint_owner_is_legacy: bool,
    is_native_2022: bool,
    mint_data: Seq<u8>,
) -> Result<bool, PoolError> {
    if mint_owner_is_legacy {
        Ok(true)
    } else if is_native_2022 {
        Err(PoolError::UnsupportNativeMintToken2022)
    } else {
        match extension_types_of(mint_data) {
            None => Err(PoolError::InvalidMintData),
            Some(codes) => Ok(spec_supported_extensions(codes)),
        }
    }
}

/// Decides whether the exchange supports an asset as-is: legacy assets
/// always, the extension-bearing native asset never, and others exactly
/// when every extension of the record is one the exchange can handle.
pub fn is_supported_mint(
    mint_owner_is_legacy: bool,
    is_native_2022: bool,
    mint_data: &[u8],
) -> (r: Result<bool, PoolError>)
    ensures
        r == spec_is_supported_mint(mint_owner_is_legacy, is_native_2022, mint_data@),
{
    if mint_owner_is_legacy {
        return Ok(true);
    }
    if is_native_2022 {
        return Err(PoolError::UnsupportNativeMintToken2022);
    }
    let codes = match unpack_extension_types(mint_data) {
        Ok(v) => v,
        Err(e) => {
            return Err(e);
        },
    };
    let n = codes.len();
    let mut i: usize = 0;
    while i < n
        invariant
            !mint_owner_is_legacy,
            !is_native_2022,
            extension_types_of(mint_data@) == Some(codes@),
            n == codes@.len(),
            0 <= i <= n,
            forall|k: int| 0 <= k < i ==> spec_supported_extension_code(#[trigger] codes@[k]),
        decreases n - i,
    {
        let c = codes[i];
        if !(c == EXTENSION_TRANSFER_FEE_CONFIG || c == EXTENSION_METADATA_POINTER || c
            == EXTENSION_TOKEN_METADATA || c == EXTENSION_TRANSFER_HOOK) {
            proof {
                assert(!spec_supported_extension_code(codes@[i as int]));
            }
            return Ok(false);
        }
        i = i + 1;
    }
    Ok(true)
}

/// The derived address of a hook's auxiliary-configuration record for one
/// asset under one hook program, as identifier words.  The derivation is a
/// function of the two identifiers alone.
pub uninterp spec fn extra_account_metas_address_of(
    mint: (u128, u128),
    hook_program: (u128, u128),
) -> (u128, u128);

/// The derived auxiliary-configuration address, as a library identifier.
pub open spec fn spec_extra_metas_address(mint: ProgramId, hook_program: ProgramId) -> ProgramId {
    let words = extra_account_metas_address_of(
        (mint.lo, mint.hi),
        (hook_program.lo, hook_program.hi),
    );
    ProgramId { lo: words.0, hi: words.1 }
}

/// Relies on the hook interface's `get_extra_account_metas_address`: the
/// auxiliary-configuration record's address is derived from the asset and
/// the hook program alone.
#[verifier::external_body]
pub fn get_extra_account_metas_address(mint: &ProgramId, hook_program: &ProgramId) -> (r:
    ProgramId)
    ensures
        (r.lo, r.hi) == extra_account_metas_address_of(
            (mint.lo, mint.hi),
            (hook_program.lo, hook_program.hi),
        ),
        r == spec_extra_metas_address(*mint, *hook_program),
{
    let mut mint_bytes = [0u8; 32];
    mint_bytes[0..16].copy_from_slice(&mint.lo.to_le_bytes());
    mint_bytes[16..32].copy_from_slice(&mint.hi.to_le_bytes());
    let mut hook_bytes = [0u8; 32];
    hook_bytes[0..16].copy_from_slice(&hook_program.lo.to_le_bytes());
    hook_bytes[16..32].copy_from_slice(&hook_program.hi.to_le_bytes());
    let mint_key = Pubkey::new_from_array(mint_bytes);
    let hook_key = Pubkey::new_from_array(hook_bytes);
    let derived =
        spl_transfer_hook_interface::get_extra_account_metas_address(&mint_key, &hook_key);
    let bytes = derived.to_bytes();
    let lo = u128::from_le_bytes(bytes[0..16].try_into().unwrap());
    let hi = u128::from_le_bytes(bytes[16..32].try_into().unwrap());
    ProgramId { lo, hi }
}

} // verus!
