//! The compliance record: one per identity — an eligibility tier, a risk
//! score, status flags, rolling daily and monthly transferred volume with
//! reset markers, and location codes.  A hook program consults it
//! synchronously during every gated balance movement.

use vstd::prelude::*;

use crate::bytes::all_ascii_alphabetic;
use crate::bytes::all_ascii_alphanumeric;
use crate::bytes::all_ascii_printable;
use crate::bytes::spec_is_ascii_alphabetic;
use crate::bytes::spec_is_ascii_alphanumeric;
use crate::bytes::spec_is_ascii_printable;
use crate::bytes::spec_to_ascii_uppercase;
use crate::bytes::to_ascii_uppercase_bytes;
use crate::errors::PoolError;
use crate::ids::ProgramId;

verus! {

/// The tier of an identity that has not been verified at all.
pub const KYC_LEVEL_UNVERIFIED: u8 = 0;

/// The least tier that admits trading.
pub const KYC_LEVEL_BASIC: u8 = 1;

/// The tier of an identity with enhanced verification.
pub const KYC_LEVEL_ENHANCED: u8 = 2;

/// The highest tier: institutional verification.
pub const KYC_LEVEL_INSTITUTIONAL: u8 = 3;

/// The status bit for a sanctioned identity.
pub const FLAG_SANCTIONS: u8 = 0x01;

/// The status bit for a politically exposed person.
pub const FLAG_PEP: u8 = 0x02;

/// The status bit for a frozen account.
pub const FLAG_FROZEN: u8 = 0x04;

/// The status bit for an expired verification.
pub const FLAG_EXPIRED: u8 = 0x08;

/// The risk score's upper end.
pub const MAX_RISK_SCORE: u8 = 100;

/// The default risk score a fresh record starts with.
pub const DEFAULT_RISK_SCORE: u8 = 50;

/// One identity's eligibility record.
#[derive(Debug)]
pub struct UserKYC {
    /// The identity the record belongs to.
    pub user: ProgramId,
    /// The eligibility tier, 0 through 3.
    pub kyc_level: u8,
    /// The risk score, 0 through 100; higher means riskier.
    pub risk_score: u8,
    /// When the record was last changed.
    pub last_updated: i64,
    /// The status bits (see the `FLAG_*` constants).
    pub flags: u8,
    /// Volume transferred on the current day.
    pub daily_volume: u64,
    /// Volume transferred in the current month.
    pub monthly_volume: u64,
    /// The day marker the daily volume was last reset at.
    pub last_reset_day: i64,
    /// The month marker the monthly volume was last reset at.
    pub last_reset_month: i64,
    /// The two-letter country code, as bytes.
    pub country: Vec<u8>,
    /// The subdivision code, up to two bytes.
    pub state: Vec<u8>,
    /// The city name, up to 32 printable ASCII bytes.
    pub city: Vec<u8>,
}

/// A record's invariant: the tier, the risk score and the location codes
/// are within their defined ranges.
pub open spec fn spec_kyc_well_formed(k: UserKYC) -> bool {
    &&& k.kyc_level <= KYC_LEVEL_INSTITUTIONAL
    &&& k.risk_score <= MAX_RISK_SCORE
    &&& k.country@.len() <= 2
    &&& k.state@.len() <= 2
    &&& k.city@.len() <= 32
}

/// The rolled volume counter: reset to zero when the period marker moved,
/// then increased by `amount`, saturating at the largest 64-bit value.
pub open spec fn spec_rolled_volume(previous: u64, marker_moved: bool, amount: u64) -> u64 {
    let base: int = if marker_moved {
        0
    } else {
        previous as int
    };
    if base + amount > u64::MAX {
        u64::MAX
    } else {
        (base + amount) as u64
    }
}

/// The sequence with any trailing zero bytes removed.
pub open spec fn spec_trim_trailing_zeros(s: Seq<u8>) -> Seq<u8>
    decreases s.len(),
{
    if s.len() == 0 {
        s
    } else if s[s.len() - 1] == 0 {
        spec_trim_trailing_zeros(s.drop_last())
    } else {
        s
    }
}

impl UserKYC {
    /// Whether the record carries the sanctions flag.
    pub fn is_sanctioned(&self) -> (r: bool)
        ensures
            r == ((self.flags & FLAG_SANCTIONS) != 0),
    {
        (self.flags & FLAG_SANCTIONS) != 0
    }

    /// Whether the record marks a politically exposed person.
    pub fn is_pep(&self) -> (r: bool)
        ensures
            r == ((self.flags & FLAG_PEP) != 0),
    {
        (self.flags & FLAG_PEP) != 0
    }

    /// Whether the record carries the frozen flag.
    pub fn is_frozen(&self) -> (r: bool)
        ensures
            r == ((self.flags & FLAG_FROZEN) != 0),
    {
        (self.flags & FLAG_FROZEN) != 0
    }

    /// Whether the record carries the expired flag.
    pub fn is_expired(&self) -> (r: bool)
        ensures
            r == ((self.flags & FLAG_EXPIRED) != 0),
    {
        (self.flags & FLAG_EXPIRED) != 0
    }

    /// Whether the identity may trade: at least the basic tier, and neither
    /// sanctioned, frozen nor expired.
    pub fn is_eligible_for_trading(&self) -> (r: bool)
        ensures
            r == (self.kyc_level >= KYC_LEVEL_BASIC && (self.flags & FLAG_SANCTIONS) == 0 && (
            self.flags & FLAG_FROZEN) == 0 && (self.flags & FLAG_EXPIRED) == 0),
    {
        self.kyc_level >= KYC_LEVEL_BASIC && !self.is_sanctioned() && !self.is_frozen()
            && !self.is_expired()
    }

    /// Accumulates `amount` into the daily volume, resetting the counter
    /// first when the current day differs from the stored marker; the
    /// counter saturates rather than wraps.
    pub fn update_daily_volume(&mut self, current_day: i64, amount: u64)
        ensures
            *final(self) == (UserKYC {
                daily_volume: spec_rolled_volume(
                    old(self).daily_volume,
                    old(self).last_reset_day != current_day,
                    amount,
                ),
                last_reset_day: current_day,
                ..*old(self)
            }),
    {
        if self.last_reset_day != current_day {
            self.daily_volume = 0;
            self.last_reset_day = current_day;
        }
        self.daily_volume = self.daily_volume.saturating_add(amount);
    }

    /// Accumulates `amount` into the monthly volume, resetting the counter
    /// first when the current month differs from the stored marker; the
    /// counter saturates rather than wraps.
    pub fn update_monthly_volume(&mut self, current_month: i64, amount: u64)
        ensures
            *final(self) == (UserKYC {
                monthly_volume: spec_rolled_volume(
                    old(self).monthly_volume,
                    old(self).last_reset_month != current_month,
                    amount,
                ),
                last_reset_month: current_month,
                ..*old(self)
            }),
    {
        if self.last_reset_month != current_month {
            self.monthly_volume = 0;
            self.last_reset_month = current_month;
        }
        self.monthly_volume = self.monthly_volume.saturating_add(amount);
    }

    /// The stored country code with trailing zero bytes removed.
    pub fn get_country_str(&self) -> (r: Vec<u8>)
        ensures
            r@ == spec_trim_trailing_zeros(self.country@),
    {
        trim_trailing_zeros(&self.country)
    }

    /// The stored subdivision code with trailing zero bytes removed.
    pub fn get_state_str(&self) -> (r: Vec<u8>)
        ensures
            r@ == spec_trim_trailing_zeros(self.state@),
    {
        trim_trailing_zeros(&self.state)
    }

    /// The stored city name with trailing zero bytes removed.
    pub fn get_city_str(&self) -> (r: Vec<u8>)
        ensures
            r@ == spec_trim_trailing_zeros(self.city@),
    {
        trim_trailing_zeros(&self.city)
    }

    /// Stores the first two bytes of `country` as the country code.
    pub fn set_country(&mut self, country: &[u8])
        ensures
            *final(self) == (UserKYC {
                country: final(self).country,
                ..*old(self)
            }),
            final(self).country@ == country@.take(if country@.len() <= 2 {
                country@.len() as int
            } else {
                2
            }),
    {
        self.country = take_prefix(country, 2);
    }

    /// Stores the first two bytes of `state` as the subdivision code.
    pub fn set_state(&mut self, state: &[u8])
        ensures
            *final(self) == (UserKYC { state: final(self).state, ..*old(self) }),
            final(self).state@ == state@.take(if state@.len() <= 2 {
                state@.len() as int
            } else {
                2
            }),
    {
        self.state = take_prefix(state, 2);
    }

    /// Stores the first 32 bytes of `city` as the city name.
    pub fn set_city(&mut self, city: &[u8])
        ensures
            *final(self) == (UserKYC { city: final(self).city, ..*old(self) }),
            final(self).city@ == city@.take(if city@.len() <= 32 {
                city@.len() as int
            } else {
                32
            }),
    {
        self.city = take_prefix(city, 32);
    }
}

/// The first `limit` bytes of `s`, or all of `s` when it is shorter.
fn take_prefix(s: &[u8], limit: usize) -> (r: Vec<u8>)
    ensures
        r@ == s@.take(if s@.len() <= limit {
            s@.len() as int
        } else {
            limit as int
        }),
{
    let n = if s.len() <= limit {
        s.len()
    } else {
        limit
    };
    let mut out: Vec<u8> = Vec::new();
    let mut i: usize = 0;
    while i < n
        invariant
            n <= s@.len(),
            0 <= i <= n,
            out@.len() == i,
            forall|k: int| 0 <= k < i ==> out@[k] == s@[k],
        decreases n - i,
    {
        out.push(s[i]);
        i = i + 1;
    }
    proof {
        assert(out@ =~= s@.take(n as int));
    }
    out
}

/// The stored bytes with trailing zero bytes removed.
fn trim_trailing_zeros(s: &Vec<u8>) -> (r: Vec<u8>)
    ensures
        r@ == spec_trim_trailing_zeros(s@),
{
    let mut end = s.len();
    proof {
        assert(s@.take(end as int) =~= s@);
    }
    while end > 0 && s[end - 1] == 0
        invariant
            end <= s@.len(),
            spec_trim_trailing_zeros(s@) == spec_trim_trailing_zeros(s@.take(end as int)),
        decreases end,
    {
        proof {
            assert(s@.take(end as int)[end - 1] == s@[end - 1]);
            assert(s@.take(end as int).drop_last() =~= s@.take(end - 1));
        }
        end = end - 1;
    }
    let mut out: Vec<u8> = Vec::new();
    let mut i: usize = 0;
    while i < end
        invariant
            end <= s@.len(),
            0 <= i <= end,
            out@.len() == i,
            forall|k: int| 0 <= k < i ==> out@[k] == s@[k],
        decreases end - i,
    {
        out.push(s[i]);
        i = i + 1;
    }
    proof {
        assert(out@ =~= s@.take(end as int));
        if end > 0 {
            assert(s@.take(end as int)[end - 1] == s@[end - 1]);
            assert(spec_trim_trailing_zeros(s@.take(end as int)) == s@.take(end as int));
        }
    }
    out
}

/// Whether `country` is a valid country code: exactly two ASCII letters.
pub open spec fn spec_valid_country(country: Seq<u8>) -> bool {
    country.len() == 2 && (forall|k: int|
        0 <= k < country.len() ==> spec_is_ascii_alphabetic(#[trigger] country[k]))
}

/// Whether `state` is a valid subdivision code: up to two ASCII letters or
/// digits.
pub open spec fn spec_valid_state(state: Seq<u8>) -> bool {
    state.len() <= 2 && (forall|k: int|
        0 <= k < state.len() ==> spec_is_ascii_alphanumeric(#[trigger] state[k]))
}

/// Whether `city` is a valid city name: up to 32 printable ASCII bytes.
pub open spec fn spec_valid_city(city: Seq<u8>) -> bool {
    city.len() <= 32 && (forall|k: int|
        0 <= k < city.len() ==> spec_is_ascii_printable(#[trigger] city[k]))
}

/// The sequence with every ASCII lowercase letter raised to uppercase.
pub open spec fn spec_uppercased(s: Seq<u8>) -> Seq<u8> {
    Seq::new(s.len(), |k: int| spec_to_ascii_uppercase(s[k]))
}

/// Whether initializing a record with these inputs is refused, and with
/// which error: tier, country, subdivision and city are validated in that
/// order.
pub open spec fn spec_initialize_user_kyc_error(
    kyc_level: u8,
    country: Seq<u8>,
    state: Seq<u8>,
    city: Seq<u8>,
) -> Option<PoolError> {
    if kyc_level > KYC_LEVEL_INSTITUTIONAL {
        Some(PoolError::InvalidKycLevel)
    } else if !spec_valid_country(country) {
        Some(PoolError::InvalidCountryCode)
    } else if !spec_valid_state(state) {
        Some(PoolError::InvalidStateCode)
    } else if !spec_valid_city(city) {
        Some(PoolError::InvalidCityName)
    } else {
        None
    }
}

/// Creates a fresh compliance record for `user`.
///
/// The tier must be within the defined range, the country exactly two ASCII
/// letters, the subdivision up to two ASCII letters or digits, the city up
/// to 32 printable ASCII bytes; country and subdivision are stored
/// uppercased.  The record starts unflagged, at the default risk score,
/// with zero volumes anchored to the current day and month.  `now` is the
/// host clock, which is never before the epoch.
pub fn handle_initialize_user_kyc(
    user: ProgramId,
    kyc_level: u8,
    country: &[u8],
    state: &[u8],
    city: &[u8],
    now: i64,
) -> (r: Result<UserKYC, PoolError>)
    requires
        now >= 0,
    ensures
        match spec_initialize_user_kyc_error(kyc_level, country@, state@, city@) {
            Some(e) => r == Err::<UserKYC, PoolError>(e),
            None => r matches Ok(k) && {
                &&& k.user == user
                &&& k.kyc_level == kyc_level
                &&& k.risk_score == DEFAULT_RISK_SCORE
                &&& k.last_updated == now
                &&& k.flags == 0u8
                &&& k.daily_volume == 0u64
                &&& k.monthly_volume == 0u64
                &&& k.last_reset_day == ((now as u64) / 86400u64) as i64
                &&& k.last_reset_month == ((now as u64) / 2592000u64) as i64
                &&& k.country@ == spec_uppercased(country@)
                &&& k.state@ == spec_uppercased(state@)
                &&& k.city@ == city@
                &&& spec_kyc_well_formed(k)
            },
        },
{
    if kyc_level > KYC_LEVEL_INSTITUTIONAL {
        return Err(PoolError::InvalidKycLevel);
    }
    if !(country.len() == 2 && all_ascii_alphabetic(country)) {
        return Err(PoolError::InvalidCountryCode);
    }
    if !(state.len() <= 2 && all_ascii_alphanumeric(state)) {
        return Err(PoolError::InvalidStateCode);
    }
    if !(city.len() <= 32 && all_ascii_printable(city)) {
        return Err(PoolError::InvalidCityName);
    }
    let upper_country = to_ascii_uppercase_bytes(country);
    let upper_state = to_ascii_uppercase_bytes(state);
    let mut stored_city: Vec<u8> = Vec::new();
    let mut i: usize = 0;
    while i < city.len()
        invariant
            0 <= i <= city@.len(),
            stored_city@.len() == i,
            forall|k: int| 0 <= k < i ==> stored_city@[k] == city@[k],
        decreases city@.len() - i,
    {
        stored_city.push(city[i]);
        i = i + 1;
    }
    proof {
        assert(stored_city@ =~= city@);
        assert(upper_country@ =~= spec_uppercased(country@));
        assert(upper_state@ =~= spec_uppercased(state@));
    }
    Ok(
        UserKYC {
            user,
            kyc_level,
            risk_score: DEFAULT_RISK_SCORE,
            last_updated: now,
            flags: 0,
            daily_volume: 0,
            monthly_volume: 0,
            last_reset_day: ((now as u64) / 86400) as i64,
            last_reset_month: ((now as u64) / (86400 * 30)) as i64,
            country: upper_country,
            state: upper_state,
            city: stored_city,
        },
    )
}

/// Whether updating a record with these inputs is refused, and with which
/// error: the new tier, risk score, country, subdivision and city are
/// validated in that order; an absent input is not validated.
pub open spec fn spec_update_user_kyc_error(
    new_kyc_level: Option<u8>,
    new_risk_score: Option<u8>,
    new_country: Option<Seq<u8>>,
    new_state: Option<Seq<u8>>,
    new_city: Option<Seq<u8>>,
) -> Option<PoolError> {
    if new_kyc_level matches Some(l) && l > KYC_LEVEL_INSTITUTIONAL {
        Some(PoolError::InvalidKycLevel)
    } else if new_risk_score matches Some(s) && s > MAX_RISK_SCORE {
        Some(PoolError::InvalidRiskScore)
    } else if new_country matches Some(c) && !spec_valid_country(c) {
        Some(PoolError::InvalidCountryCode)
    } else if new_state matches Some(s) && !spec_valid_state(s) {
        Some(PoolError::InvalidStateCode)
    } else if new_city matches Some(c) && !spec_valid_city(c) {
        Some(PoolError::InvalidCityName)
    } else {
        None
    }
}

/// Applies an authority's update to a compliance record: each supplied
/// field is validated, flags are first set and then cleared, country and
/// subdivision are stored uppercased, and the update timestamp is
/// refreshed.  On any validation error the record is unchanged.
pub fn handle_update_user_kyc(
    user_kyc: &mut UserKYC,
    new_kyc_level: Option<u8>,
    new_risk_score: Option<u8>,
    flags_to_set: Option<u8>,
    flags_to_clear: Option<u8>,
    new_country: Option<Vec<u8>>,
    new_state: Option<Vec<u8>>,
    new_city: Option<Vec<u8>>,
    now: i64,
) -> (r: Result<(), PoolError>)
    ensures
        match spec_update_user_kyc_error(
            new_kyc_level,
            new_risk_score,
            match new_country {
                Some(c) => Some(c@),
                None => None,
            },
            match new_state {
                Some(s) => Some(s@),
                None => None,
            },
            match new_city {
                Some(c) => Some(c@),
                None => None,
            },
        ) {
            Some(e) => r == Err::<(), PoolError>(e) && *final(user_kyc) == *old(user_kyc),
            None => r == Ok::<(), PoolError>(()) && {
                &&& final(user_kyc).user == old(user_kyc).user
                &&& final(user_kyc).kyc_level == (match new_kyc_level {
                    Some(l) => l,
                    None => old(user_kyc).kyc_level,
                })
                &&& final(user_kyc).risk_score == (match new_risk_score {
                    Some(s) => s,
                    None => old(user_kyc).risk_score,
                })
                &&& final(user_kyc).flags == ((old(user_kyc).flags | (match flags_to_set {
                    Some(f) => f,
                    None => 0u8,
                })) & !(match flags_to_clear {
                    Some(f) => f,
                    None => 0u8,
                }))
                &&& final(user_kyc).daily_volume == old(user_kyc).daily_volume
                &&& final(user_kyc).monthly_volume == old(user_kyc).monthly_volume
                &&& final(user_kyc).last_reset_day == old(user_kyc).last_reset_day
                &&& final(user_kyc).last_reset_month == old(user_kyc).last_reset_month
                &&& final(user_kyc).country@ == (match new_country {
                    Some(c) => spec_uppercased(c@),
                    None => old(user_kyc).country@,
                })
                &&& final(user_kyc).state@ == (match new_state {
                    Some(s) => spec_uppercased(s@),
                    None => old(user_kyc).state@,
                })
                &&& final(user_kyc).city@ == (match new_city {
                    Some(c) => c@,
                    None => old(user_kyc).city@,
                })
                &&& final(user_kyc).last_updated == now
            },
        },
{
    match &new_kyc_level {
        Some(l) => {
            if *l > KYC_LEVEL_INSTITUTIONAL {
                return Err(PoolError::InvalidKycLevel);
            }
        },
        None => {},
    }
    match &new_risk_score {
        Some(s) => {
            if *s > MAX_RISK_SCORE {
                return Err(PoolError::InvalidRiskScore);
            }
        },
        None => {},
    }
    match &new_country {
        Some(c) => {
            if !(c.len() == 2 && all_ascii_alphabetic(c.as_slice())) {
                return Err(PoolError::InvalidCountryCode);
            }
        },
        None => {},
    }
    match &new_state {
        Some(s) => {
            if !(s.len() <= 2 && all_ascii_alphanumeric(s.as_slice())) {
                return Err(PoolError::InvalidStateCode);
            }
        },
        None => {},
    }
    match &new_city {
        Some(c) => {
            if !(c.len() <= 32 && all_ascii_printable(c.as_slice())) {
                return Err(PoolError::InvalidCityName);
            }
        },
        None => {},
    }
    match new_kyc_level {
        Some(l) => {
            user_kyc.kyc_level = l;
        },
        None => {},
    }
    match new_risk_score {
        Some(s) => {
            user_kyc.risk_score = s;
        },
        None => {},
    }
    let set_bits: u8 = match flags_to_set {
        Some(f) => f,
        None => 0,
    };
    let clear_bits: u8 = match flags_to_clear {
        Some(f) => f,
        None => 0,
    };
    user_kyc.flags = (user_kyc.flags | set_bits) & !clear_bits;
    match new_country {
        Some(c) => {
            user_kyc.country = to_ascii_uppercase_bytes(c.as_slice());
            proof {
                assert(user_kyc.country@ =~= spec_uppercased(c@));
            }
        },
        None => {},
    }
    match new_state {
        Some(s) => {
            user_kyc.state = to_ascii_uppercase_bytes(s.as_slice());
            proof {
                assert(user_kyc.state@ =~= spec_uppercased(s@));
            }
        },
        None => {},
    }
    match new_city {
        Some(c) => {
            user_kyc.city = c;
        },
        None => {},
    }
    user_kyc.last_updated = now;
    Ok(())
}

} // verus!
