//! The asset listing badge: one record per listed asset, set by an
//! administrator, read-only at swap time.  It carries the asset's optional
//! hook program and a bitmask of compliance requirements whose enforcement
//! is delegated to the hook program.

use vstd::prelude::*;

use crate::errors::PoolError;
use crate::ids::ProgramId;

verus! {

/// The requirement bit for identity (KYC) validation.
pub const FLAG_REQUIRES_KYC: u8 = 0x01;

/// The requirement bit for geographic restrictions.
pub const FLAG_REQUIRES_GEO_RESTRICTIONS: u8 = 0x02;

/// The requirement bit for volume limits.
pub const FLAG_REQUIRES_VOLUME_LIMITS: u8 = 0x04;

/// Hook-specific configuration an administrator sets for one asset.
#[derive(Clone, Copy, Debug, PartialEq, Eq, Structural)]
pub struct TokenBadge {
    /// The asset the badge belongs to.
    pub token_mint: ProgramId,
    /// The hook program the asset routes through; the all-zero identifier
    /// means none.
    pub hook_program_id: ProgramId,
    /// The compliance requirement bitmask (see the `FLAG_REQUIRES_*`
    /// constants).
    pub hook_config_flags: u8,
    /// The largest daily volume allowed; zero means no limit.
    pub max_daily_volume: u64,
    /// The largest monthly volume allowed; zero means no limit.
    pub max_monthly_volume: u64,
    /// The least eligibility tier required for trading; zero means no
    /// requirement.
    pub min_kyc_level: u8,
}

impl TokenBadge {
    /// Resets the badge to the default configuration for `token_mint`: no
    /// hook program and no requirements.
    pub fn initialize(&mut self, token_mint: ProgramId)
        ensures
            *final(self) == (TokenBadge {
                token_mint,
                hook_program_id: ProgramId::spec_zero(),
                hook_config_flags: 0u8,
                max_daily_volume: 0u64,
                max_monthly_volume: 0u64,
                min_kyc_level: 0u8,
            }),
    {
        self.token_mint = token_mint;
        self.hook_program_id = ProgramId::zero();
        self.hook_config_flags = 0;
        self.max_daily_volume = 0;
        self.max_monthly_volume = 0;
        self.min_kyc_level = 0;
    }

    /// Sets the badge to a hook-bearing configuration for `token_mint`.
    pub fn initialize_with_hook(
        &mut self,
        token_mint: ProgramId,
        hook_program_id: ProgramId,
        hook_config_flags: u8,
        max_daily_volume: u64,
        max_monthly_volume: u64,
        min_kyc_level: u8,
    )
        ensures
            *final(self) == (TokenBadge {
                token_mint,
                hook_program_id,
                hook_config_flags,
                max_daily_volume,
                max_monthly_volume,
                min_kyc_level,
            }),
    {
        self.token_mint = token_mint;
        self.hook_program_id = hook_program_id;
        self.hook_config_flags = hook_config_flags;
        self.max_daily_volume = max_daily_volume;
        self.max_monthly_volume = max_monthly_volume;
        self.min_kyc_level = min_kyc_level;
    }

    /// Whether the asset requires identity validation.
    pub fn requires_kyc(&self) -> (r: bool)
        ensures
            r == ((self.hook_config_flags & FLAG_REQUIRES_KYC) != 0),
    {
        (self.hook_config_flags & FLAG_REQUIRES_KYC) != 0
    }

    /// Whether the asset carries geographic restrictions.
    pub fn has_geo_restrictions(&self) -> (r: bool)
        ensures
            r == ((self.hook_config_flags & FLAG_REQUIRES_GEO_RESTRICTIONS) != 0),
    {
        (self.hook_config_flags & FLAG_REQUIRES_GEO_RESTRICTIONS) != 0
    }

    /// Whether the asset carries volume limits.
    pub fn has_volume_limits(&self) -> (r: bool)
        ensures
            r == ((self.hook_config_flags & FLAG_REQUIRES_VOLUME_LIMITS) != 0),
    {
        (self.hook_config_flags & FLAG_REQUIRES_VOLUME_LIMITS) != 0
    }

    /// Whether the asset declares a hook program.
    pub fn has_hook_program(&self) -> (r: bool)
        ensures
            r == (self.hook_program_id != ProgramId::spec_zero()),
    {
        !self.hook_program_id.is_zero()
    }

    /// The declared hook program, when there is one.
    pub fn get_hook_program_id(&self) -> (r: Option<ProgramId>)
        ensures
            r == if self.hook_program_id != ProgramId::spec_zero() {
                Some(self.hook_program_id)
            } else {
                None::<ProgramId>
            },
    {
        if !self.hook_program_id.is_zero() {
            Some(self.hook_program_id)
        } else {
            None
        }
    }
}

/// What creating a badge returns: only an administrator may create one
/// (`InvalidAdmin`), only for an asset that the exchange does not already
/// support as-is (`CannotCreateTokenBadgeOnSupportedMint`); otherwise the
/// default badge for the asset.
pub open spec fn spec_create_token_badge(
    caller_is_admin: bool,
    mint_is_supported: bool,
    token_mint: ProgramId,
) -> Result<TokenBadge, PoolError> {
    if !caller_is_admin {
        Err(PoolError::InvalidAdmin)
    } else if mint_is_supported {
        Err(PoolError::CannotCreateTokenBadgeOnSupportedMint)
    } else {
        Ok(
            TokenBadge {
                token_mint,
                hook_program_id: ProgramId::spec_zero(),
                hook_config_flags: 0u8,
                max_daily_volume: 0u64,
                max_monthly_volume: 0u64,
                min_kyc_level: 0u8,
            },
        )
    }
}

/// Creates the default badge for an asset on an administrator's behalf.
///
/// `caller_is_admin` is the host's verdict on the signing administrator;
/// `mint_is_supported` is the supported-mint check on the asset (see
/// `is_supported_mint`).
pub fn handle_create_token_badge(
    caller_is_admin: bool,
    mint_is_supported: bool,
    token_mint: ProgramId,
) -> (r: Result<TokenBadge, PoolError>)
    ensures
        r == spec_create_token_badge(caller_is_admin, mint_is_supported, token_mint),
{
    if !caller_is_admin {
        return Err(PoolError::InvalidAdmin);
    }
    if mint_is_supported {
        return Err(PoolError::CannotCreateTokenBadgeOnSupportedMint);
    }
    let mut badge = TokenBadge {
        token_mint,
        hook_program_id: ProgramId::zero(),
        hook_config_flags: 0,
        max_daily_volume: 0,
        max_monthly_volume: 0,
        min_kyc_level: 0,
    };
    badge.initialize(token_mint);
    Ok(badge)
}

/// Whether the badge record belongs to the given asset.
pub fn is_token_badge_initialized(mint: ProgramId, token_badge: &TokenBadge) -> (r: bool)
    ensures
        r == (token_badge.token_mint == mint),
{
    token_badge.token_mint == mint
}

} // verus!
