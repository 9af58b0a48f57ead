//! The compliance hook: the decision a hook program makes once per gated
//! balance movement.  It deterministically fails the movement when the
//! moving party's compliance record is sanctioned, frozen, expired or below
//! the basic tier, or when the asset's guessed location rules exclude the
//! party's recorded location.

use vstd::prelude::*;

use crate::bytes::contains_bytes;
use crate::bytes::contains_subslice;
use crate::errors::PoolError;
use crate::ids::ProgramId;
use crate::kyc::spec_trim_trailing_zeros;
use crate::kyc::UserKYC;
use crate::kyc::FLAG_EXPIRED;
use crate::kyc::FLAG_FROZEN;
use crate::kyc::FLAG_SANCTIONS;
use crate::kyc::KYC_LEVEL_BASIC;
use crate::metadata::spec_get_field;
use crate::metadata::spec_lit_allowed_countries;
use crate::metadata::spec_lit_restricted_states;
use crate::metadata::spec_parsed_metadata;
use crate::metadata::Token2022MetadataParser;

verus! {

/// The joined location code the restricted-subdivisions rule is checked
/// against: the country, an underscore, the subdivision.
pub open spec fn spec_location_code(country: Seq<u8>, state: Seq<u8>) -> Seq<u8> {
    country + seq![95u8] + state
}

/// What the hook decides for one movement, in the order the checks run:
/// the record must belong to the moving party (`UserKycNotFound`); the
/// party must be neither sanctioned, frozen nor expired and at least at the
/// basic tier; then the asset's guessed location rules are enforced — the
/// recorded country must occur in a declared allowed-countries list, and
/// the joined location code must not occur in a declared
/// restricted-subdivisions list.
pub open spec fn spec_transfer_hook_verdict(
    record: UserKYC,
    owner: ProgramId,
    mint_data: Seq<u8>,
) -> Result<(), PoolError> {
    if record.user != owner {
        Err(PoolError::UserKycNotFound)
    } else if record.flags & FLAG_SANCTIONS != 0 {
        Err(PoolError::UserSanctioned)
    } else if record.flags & FLAG_FROZEN != 0 {
        Err(PoolError::UserAccountFrozen)
    } else if record.flags & FLAG_EXPIRED != 0 {
        Err(PoolError::UserKycExpired)
    } else if record.kyc_level < KYC_LEVEL_BASIC {
        Err(PoolError::UserNotKycVerified)
    } else {
        let entries = spec_parsed_metadata(mint_data).3;
        let country = spec_trim_trailing_zeros(record.country@);
        let country_excluded = match spec_get_field(entries, spec_lit_allowed_countries()) {
            Some(allowed) => !contains_bytes(allowed, country),
            None => false,
        };
        if country_excluded {
            Err(PoolError::InvalidCountryCode)
        } else {
            let code = spec_location_code(country, spec_trim_trailing_zeros(record.state@));
            let state_excluded = match spec_get_field(entries, spec_lit_restricted_states()) {
                Some(restricted) => contains_bytes(restricted, code),
                None => false,
            };
            if state_excluded {
                Err(PoolError::InvalidStateCode)
            } else {
                Ok(())
            }
        }
    }
}

/// Decides one gated movement against the moving party's compliance record
/// and the asset's raw record bytes, exactly as
/// [`spec_transfer_hook_verdict`] states.
pub fn handle_transfer_hook(
    user_kyc: &UserKYC,
    owner: ProgramId,
    mint_account_data: &[u8],
) -> (r: Result<(), PoolError>)
    ensures
        r == spec_transfer_hook_verdict(*user_kyc, owner, mint_account_data@),
{
    if user_kyc.user != owner {
        return Err(PoolError::UserKycNotFound);
    }
    if user_kyc.is_sanctioned() {
        return Err(PoolError::UserSanctioned);
    }
    if user_kyc.is_frozen() {
        return Err(PoolError::UserAccountFrozen);
    }
    if user_kyc.is_expired() {
        return Err(PoolError::UserKycExpired);
    }
    if user_kyc.kyc_level < KYC_LEVEL_BASIC {
        return Err(PoolError::UserNotKycVerified);
    }
    let metadata = match Token2022MetadataParser::parse_metadata_from_mint(mint_account_data) {
        Ok(m) => m,
        Err(e) => {
            return Err(e);
        },
    };
    let rwa = Token2022MetadataParser::extract_rwa_metadata(&metadata);
    let user_country = user_kyc.get_country_str();
    match &rwa.allowed_countries {
        Some(allowed) => {
            if !contains_subslice(allowed.as_slice(), user_country.as_slice()) {
                return Err(PoolError::InvalidCountryCode);
            }
        },
        None => {},
    }
    let user_state = user_kyc.get_state_str();
    let mut code = user_country;
    code.push(95);
    proof {
        assert(code@ =~= spec_trim_trailing_zeros(user_kyc.country@) + seq![95u8]
            + user_state@.take(0));
    }
    let mut i: usize = 0;
    while i < user_state.len()
        invariant
            0 <= i <= user_state@.len(),
            code@ == spec_trim_trailing_zeros(user_kyc.country@) + seq![95u8] + user_state@.take(
                i as int,
            ),
            user_state@ == spec_trim_trailing_zeros(user_kyc.state@),
        decreases user_state@.len() - i,
    {
        code.push(user_state[i]);
        proof {
            assert(code@ =~= spec_trim_trailing_zeros(user_kyc.country@) + seq![95u8]
                + user_state@.take(i + 1));
        }
        i = i + 1;
    }
    proof {
        assert(user_state@.take(user_state@.len() as int) =~= user_state@);
        assert(code@ == spec_location_code(
            spec_trim_trailing_zeros(user_kyc.country@),
            spec_trim_trailing_zeros(user_kyc.state@),
        ));
    }
    match &rwa.restricted_states {
        Some(restricted) => {
            if contains_subslice(restricted.as_slice(), code.as_slice()) {
                return Err(PoolError::InvalidStateCode);
            }
        },
        None => {},
    }
    Ok(())
}

} // verus!
