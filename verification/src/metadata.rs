//! Best-effort extraction of structured metadata from an asset's raw
//! record bytes: a heuristic, non-authoritative scanner that guesses name,
//! symbol, URI and location-rule fields by pattern matching, plus an exact
//! reader for type-length-value entries.
//!
//! The scanner is legacy support, separate from enforcement: nothing here
//! is an authoritative compliance data source.

use vstd::prelude::*;

use crate::bytes::bytes_eq;
use crate::bytes::contains_byte;
use crate::bytes::contains_byte_spec;
use crate::bytes::contains_bytes;
use crate::bytes::contains_subslice;
use crate::bytes::copy_bytes;
use crate::bytes::matches_at;
use crate::bytes::spec_is_ascii_digit;
use crate::bytes::spec_is_ascii_printable;
use crate::bytes::spec_is_ascii_uppercase;
use crate::bytes::spec_to_ascii_lowercase;
use crate::bytes::starts_with_bytes;
use crate::bytes::to_ascii_lowercase_bytes;
use crate::errors::PoolError;

verus! {

/// The bytes of "http": the URI prefix.
pub open spec fn spec_lit_http() -> Seq<u8> {
    seq![
        104u8, 116u8, 116u8, 112u8,
    ]
}

/// The bytes of "http".
fn lit_http() -> (r: Vec<u8>)
    ensures
        r@ == spec_lit_http(),
{
    let r: Vec<u8> = vec![
        104u8, 116u8, 116u8, 112u8,
    ];
    proof {
        assert(r@ =~= spec_lit_http());
    }
    r
}

/// The bytes of "us": a country fragment.
pub open spec fn spec_lit_us() -> Seq<u8> {
    seq![
        117u8, 115u8,
    ]
}

/// The bytes of "us".
fn lit_us() -> (r: Vec<u8>)
    ensures
        r@ == spec_lit_us(),
{
    let r: Vec<u8> = vec![
        117u8, 115u8,
    ];
    proof {
        assert(r@ =~= spec_lit_us());
    }
    r
}

/// The bytes of "ca": a country fragment.
pub open spec fn spec_lit_ca() -> Seq<u8> {
    seq![
        99u8, 97u8,
    ]
}

/// The bytes of "ca".
fn lit_ca() -> (r: Vec<u8>)
    ensures
        r@ == spec_lit_ca(),
{
    let r: Vec<u8> = vec![
        99u8, 97u8,
    ];
    proof {
        assert(r@ =~= spec_lit_ca());
    }
    r
}

/// The bytes of "uk": a country fragment.
pub open spec fn spec_lit_uk() -> Seq<u8> {
    seq![
        117u8, 107u8,
    ]
}

/// The bytes of "uk".
fn lit_uk() -> (r: Vec<u8>)
    ensures
        r@ == spec_lit_uk(),
{
    let r: Vec<u8> = vec![
        117u8, 107u8,
    ];
    proof {
        assert(r@ =~= spec_lit_uk());
    }
    r
}

/// The bytes of "00": a minutes fragment of a time pattern.
pub open spec fn spec_lit_minutes_00() -> Seq<u8> {
    seq![
        48u8, 48u8,
    ]
}

/// The bytes of "00".
fn lit_minutes_00() -> (r: Vec<u8>)
    ensures
        r@ == spec_lit_minutes_00(),
{
    let r: Vec<u8> = vec![
        48u8, 48u8,
    ];
    proof {
        assert(r@ =~= spec_lit_minutes_00());
    }
    r
}

/// The bytes of "30": a minutes fragment of a time pattern.
pub open spec fn spec_lit_minutes_30() -> Seq<u8> {
    seq![
        51u8, 48u8,
    ]
}

/// The bytes of "30".
fn lit_minutes_30() -> (r: Vec<u8>)
    ensures
        r@ == spec_lit_minutes_30(),
{
    let r: Vec<u8> = vec![
        51u8, 48u8,
    ];
    proof {
        assert(r@ =~= spec_lit_minutes_30());
    }
    r
}

/// The bytes of "Unknown Token": the fallback asset name.
pub open spec fn spec_lit_unknown_token() -> Seq<u8> {
    seq![
        85u8, 110u8, 107u8, 110u8, 111u8, 119u8, 110u8, 32u8, 84u8, 111u8, 107u8, 101u8,
        110u8,
    ]
}

/// The bytes of "Unknown Token".
fn lit_unknown_token() -> (r: Vec<u8>)
    ensures
        r@ == spec_lit_unknown_token(),
{
    let r: Vec<u8> = vec![
        85u8, 110u8, 107u8, 110u8, 111u8, 119u8, 110u8, 32u8, 84u8, 111u8, 107u8, 101u8,
        110u8,
    ];
    proof {
        assert(r@ =~= spec_lit_unknown_token());
    }
    r
}

/// The bytes of "UNK": the fallback asset symbol.
pub open spec fn spec_lit_unk() -> Seq<u8> {
    seq![
        85u8, 78u8, 75u8,
    ]
}

/// The bytes of "UNK".
fn lit_unk() -> (r: Vec<u8>)
    ensures
        r@ == spec_lit_unk(),
{
    let r: Vec<u8> = vec![
        85u8, 78u8, 75u8,
    ];
    proof {
        assert(r@ =~= spec_lit_unk());
    }
    r
}

/// The bytes of "uri_source": a bookkeeping key.
pub open spec fn spec_lit_uri_source() -> Seq<u8> {
    seq![
        117u8, 114u8, 105u8, 95u8, 115u8, 111u8, 117u8, 114u8, 99u8, 101u8,
    ]
}

/// The bytes of "uri_source".
fn lit_uri_source() -> (r: Vec<u8>)
    ensures
        r@ == spec_lit_uri_source(),
{
    let r: Vec<u8> = vec![
        117u8, 114u8, 105u8, 95u8, 115u8, 111u8, 117u8, 114u8, 99u8, 101u8,
    ];
    proof {
        assert(r@ =~= spec_lit_uri_source());
    }
    r
}

/// The bytes of "symbol_source": a bookkeeping key.
pub open spec fn spec_lit_symbol_source() -> Seq<u8> {
    seq![
        115u8, 121u8, 109u8, 98u8, 111u8, 108u8, 95u8, 115u8, 111u8, 117u8, 114u8, 99u8,
        101u8,
    ]
}

/// The bytes of "symbol_source".
fn lit_symbol_source() -> (r: Vec<u8>)
    ensures
        r@ == spec_lit_symbol_source(),
{
    let r: Vec<u8> = vec![
        115u8, 121u8, 109u8, 98u8, 111u8, 108u8, 95u8, 115u8, 111u8, 117u8, 114u8, 99u8,
        101u8,
    ];
    proof {
        assert(r@ =~= spec_lit_symbol_source());
    }
    r
}

/// The bytes of "name_source": a bookkeeping key.
pub open spec fn spec_lit_name_source() -> Seq<u8> {
    seq![
        110u8, 97u8, 109u8, 101u8, 95u8, 115u8, 111u8, 117u8, 114u8, 99u8, 101u8,
    ]
}

/// The bytes of "name_source".
fn lit_name_source() -> (r: Vec<u8>)
    ensures
        r@ == spec_lit_name_source(),
{
    let r: Vec<u8> = vec![
        110u8, 97u8, 109u8, 101u8, 95u8, 115u8, 111u8, 117u8, 114u8, 99u8, 101u8,
    ];
    proof {
        assert(r@ =~= spec_lit_name_source());
    }
    r
}

/// The bytes of "extracted_from_account": a bookkeeping value.
pub open spec fn spec_lit_extracted_from_account() -> Seq<u8> {
    seq![
        101u8, 120u8, 116u8, 114u8, 97u8, 99u8, 116u8, 101u8, 100u8, 95u8, 102u8, 114u8,
        111u8, 109u8, 95u8, 97u8, 99u8, 99u8, 111u8, 117u8, 110u8, 116u8,
    ]
}

/// The bytes of "extracted_from_account".
fn lit_extracted_from_account() -> (r: Vec<u8>)
    ensures
        r@ == spec_lit_extracted_from_account(),
{
    let r: Vec<u8> = vec![
        101u8, 120u8, 116u8, 114u8, 97u8, 99u8, 116u8, 101u8, 100u8, 95u8, 102u8, 114u8,
        111u8, 109u8, 95u8, 97u8, 99u8, 99u8, 111u8, 117u8, 110u8, 116u8,
    ];
    proof {
        assert(r@ =~= spec_lit_extracted_from_account());
    }
    r
}

/// The bytes of "parsing_method": a bookkeeping key.
pub open spec fn spec_lit_parsing_method() -> Seq<u8> {
    seq![
        112u8, 97u8, 114u8, 115u8, 105u8, 110u8, 103u8, 95u8, 109u8, 101u8, 116u8, 104u8,
        111u8, 100u8,
    ]
}

/// The bytes of "parsing_method".
fn lit_parsing_method() -> (r: Vec<u8>)
    ensures
        r@ == spec_lit_parsing_method(),
{
    let r: Vec<u8> = vec![
        112u8, 97u8, 114u8, 115u8, 105u8, 110u8, 103u8, 95u8, 109u8, 101u8, 116u8, 104u8,
        111u8, 100u8,
    ];
    proof {
        assert(r@ =~= spec_lit_parsing_method());
    }
    r
}

/// The bytes of "pattern_matching": a bookkeeping value.
pub open spec fn spec_lit_pattern_matching() -> Seq<u8> {
    seq![
        112u8, 97u8, 116u8, 116u8, 101u8, 114u8, 110u8, 95u8, 109u8, 97u8, 116u8, 99u8,
        104u8, 105u8, 110u8, 103u8,
    ]
}

/// The bytes of "pattern_matching".
fn lit_pattern_matching() -> (r: Vec<u8>)
    ensures
        r@ == spec_lit_pattern_matching(),
{
    let r: Vec<u8> = vec![
        112u8, 97u8, 116u8, 116u8, 101u8, 114u8, 110u8, 95u8, 109u8, 97u8, 116u8, 99u8,
        104u8, 105u8, 110u8, 103u8,
    ];
    proof {
        assert(r@ =~= spec_lit_pattern_matching());
    }
    r
}

/// The bytes of "account_size": a bookkeeping key.
pub open spec fn spec_lit_account_size() -> Seq<u8> {
    seq![
        97u8, 99u8, 99u8, 111u8, 117u8, 110u8, 116u8, 95u8, 115u8, 105u8, 122u8, 101u8,
    ]
}

/// The bytes of "account_size".
fn lit_account_size() -> (r: Vec<u8>)
    ensures
        r@ == spec_lit_account_size(),
{
    let r: Vec<u8> = vec![
        97u8, 99u8, 99u8, 111u8, 117u8, 110u8, 116u8, 95u8, 115u8, 105u8, 122u8, 101u8,
    ];
    proof {
        assert(r@ =~= spec_lit_account_size());
    }
    r
}

/// The bytes of "strings_found": a bookkeeping key.
pub open spec fn spec_lit_strings_found() -> Seq<u8> {
    seq![
        115u8, 116u8, 114u8, 105u8, 110u8, 103u8, 115u8, 95u8, 102u8, 111u8, 117u8, 110u8,
        100u8,
    ]
}

/// The bytes of "strings_found".
fn lit_strings_found() -> (r: Vec<u8>)
    ensures
        r@ == spec_lit_strings_found(),
{
    let r: Vec<u8> = vec![
        115u8, 116u8, 114u8, 105u8, 110u8, 103u8, 115u8, 95u8, 102u8, 111u8, 117u8, 110u8,
        100u8,
    ];
    proof {
        assert(r@ =~= spec_lit_strings_found());
    }
    r
}

/// The bytes of "possible_allowed_countries": a pattern key.
pub open spec fn spec_lit_possible_allowed_countries() -> Seq<u8> {
    seq![
        112u8, 111u8, 115u8, 115u8, 105u8, 98u8, 108u8, 101u8, 95u8, 97u8, 108u8, 108u8,
        111u8, 119u8, 101u8, 100u8, 95u8, 99u8, 111u8, 117u8, 110u8, 116u8, 114u8, 105u8,
        101u8, 115u8,
    ]
}

/// The bytes of "possible_allowed_countries".
fn lit_possible_allowed_countries() -> (r: Vec<u8>)
    ensures
        r@ == spec_lit_possible_allowed_countries(),
{
    let r: Vec<u8> = vec![
        112u8, 111u8, 115u8, 115u8, 105u8, 98u8, 108u8, 101u8, 95u8, 97u8, 108u8, 108u8,
        111u8, 119u8, 101u8, 100u8, 95u8, 99u8, 111u8, 117u8, 110u8, 116u8, 114u8, 105u8,
        101u8, 115u8,
    ];
    proof {
        assert(r@ =~= spec_lit_possible_allowed_countries());
    }
    r
}

/// The bytes of "possible_trading_hours": a pattern key.
pub open spec fn spec_lit_possible_trading_hours() -> Seq<u8> {
    seq![
        112u8, 111u8, 115u8, 115u8, 105u8, 98u8, 108u8, 101u8, 95u8, 116u8, 114u8, 97u8,
        100u8, 105u8, 110u8, 103u8, 95u8, 104u8, 111u8, 117u8, 114u8, 115u8,
    ]
}

/// The bytes of "possible_trading_hours".
fn lit_possible_trading_hours() -> (r: Vec<u8>)
    ensures
        r@ == spec_lit_possible_trading_hours(),
{
    let r: Vec<u8> = vec![
        112u8, 111u8, 115u8, 115u8, 105u8, 98u8, 108u8, 101u8, 95u8, 116u8, 114u8, 97u8,
        100u8, 105u8, 110u8, 103u8, 95u8, 104u8, 111u8, 117u8, 114u8, 115u8,
    ];
    proof {
        assert(r@ =~= spec_lit_possible_trading_hours());
    }
    r
}

/// The bytes of "possible_timezone_offset": a pattern key.
pub open spec fn spec_lit_possible_timezone_offset() -> Seq<u8> {
    seq![
        112u8, 111u8, 115u8, 115u8, 105u8, 98u8, 108u8, 101u8, 95u8, 116u8, 105u8, 109u8,
        101u8, 122u8, 111u8, 110u8, 101u8, 95u8, 111u8, 102u8, 102u8, 115u8, 101u8, 116u8,
    ]
}

/// The bytes of "possible_timezone_offset".
fn lit_possible_timezone_offset() -> (r: Vec<u8>)
    ensures
        r@ == spec_lit_possible_timezone_offset(),
{
    let r: Vec<u8> = vec![
        112u8, 111u8, 115u8, 115u8, 105u8, 98u8, 108u8, 101u8, 95u8, 116u8, 105u8, 109u8,
        101u8, 122u8, 111u8, 110u8, 101u8, 95u8, 111u8, 102u8, 102u8, 115u8, 101u8, 116u8,
    ];
    proof {
        assert(r@ =~= spec_lit_possible_timezone_offset());
    }
    r
}

/// The bytes of "possible_json_metadata": a pattern key.
pub open spec fn spec_lit_possible_json_metadata() -> Seq<u8> {
    seq![
        112u8, 111u8, 115u8, 115u8, 105u8, 98u8, 108u8, 101u8, 95u8, 106u8, 115u8, 111u8,
        110u8, 95u8, 109u8, 101u8, 116u8, 97u8, 100u8, 97u8, 116u8, 97u8,
    ]
}

/// The bytes of "possible_json_metadata".
fn lit_possible_json_metadata() -> (r: Vec<u8>)
    ensures
        r@ == spec_lit_possible_json_metadata(),
{
    let r: Vec<u8> = vec![
        112u8, 111u8, 115u8, 115u8, 105u8, 98u8, 108u8, 101u8, 95u8, 106u8, 115u8, 111u8,
        110u8, 95u8, 109u8, 101u8, 116u8, 97u8, 100u8, 97u8, 116u8, 97u8,
    ];
    proof {
        assert(r@ =~= spec_lit_possible_json_metadata());
    }
    r
}

/// The bytes of "allowed_countries": a location-rule key.
pub open spec fn spec_lit_allowed_countries() -> Seq<u8> {
    seq![
        97u8, 108u8, 108u8, 111u8, 119u8, 101u8, 100u8, 95u8, 99u8, 111u8, 117u8, 110u8,
        116u8, 114u8, 105u8, 101u8, 115u8,
    ]
}

/// The bytes of "allowed_countries".
fn lit_allowed_countries() -> (r: Vec<u8>)
    ensures
        r@ == spec_lit_allowed_countries(),
{
    let r: Vec<u8> = vec![
        97u8, 108u8, 108u8, 111u8, 119u8, 101u8, 100u8, 95u8, 99u8, 111u8, 117u8, 110u8,
        116u8, 114u8, 105u8, 101u8, 115u8,
    ];
    proof {
        assert(r@ =~= spec_lit_allowed_countries());
    }
    r
}

/// The bytes of "restricted_states": a location-rule key.
pub open spec fn spec_lit_restricted_states() -> Seq<u8> {
    seq![
        114u8, 101u8, 115u8, 116u8, 114u8, 105u8, 99u8, 116u8, 101u8, 100u8, 95u8, 115u8,
        116u8, 97u8, 116u8, 101u8, 115u8,
    ]
}

/// The bytes of "restricted_states".
fn lit_restricted_states() -> (r: Vec<u8>)
    ensures
        r@ == spec_lit_restricted_states(),
{
    let r: Vec<u8> = vec![
        114u8, 101u8, 115u8, 116u8, 114u8, 105u8, 99u8, 116u8, 101u8, 100u8, 95u8, 115u8,
        116u8, 97u8, 116u8, 101u8, 115u8,
    ];
    proof {
        assert(r@ =~= spec_lit_restricted_states());
    }
    r
}

/// The bytes of "trading_hours": a location-rule key.
pub open spec fn spec_lit_trading_hours() -> Seq<u8> {
    seq![
        116u8, 114u8, 97u8, 100u8, 105u8, 110u8, 103u8, 95u8, 104u8, 111u8, 117u8, 114u8,
        115u8,
    ]
}

/// The bytes of "trading_hours".
fn lit_trading_hours() -> (r: Vec<u8>)
    ensures
        r@ == spec_lit_trading_hours(),
{
    let r: Vec<u8> = vec![
        116u8, 114u8, 97u8, 100u8, 105u8, 110u8, 103u8, 95u8, 104u8, 111u8, 117u8, 114u8,
        115u8,
    ];
    proof {
        assert(r@ =~= spec_lit_trading_hours());
    }
    r
}

/// The bytes of "timezone_offset": a location-rule key.
pub open spec fn spec_lit_timezone_offset() -> Seq<u8> {
    seq![
        116u8, 105u8, 109u8, 101u8, 122u8, 111u8, 110u8, 101u8, 95u8, 111u8, 102u8, 102u8,
        115u8, 101u8, 116u8,
    ]
}

/// The bytes of "timezone_offset".
fn lit_timezone_offset() -> (r: Vec<u8>)
    ensures
        r@ == spec_lit_timezone_offset(),
{
    let r: Vec<u8> = vec![
        116u8, 105u8, 109u8, 101u8, 122u8, 111u8, 110u8, 101u8, 95u8, 111u8, 102u8, 102u8,
        115u8, 101u8, 116u8,
    ];
    proof {
        assert(r@ =~= spec_lit_timezone_offset());
    }
    r
}

/// The bytes of "metadata_type": a location-rule key.
pub open spec fn spec_lit_metadata_type() -> Seq<u8> {
    seq![
        109u8, 101u8, 116u8, 97u8, 100u8, 97u8, 116u8, 97u8, 95u8, 116u8, 121u8, 112u8,
        101u8,
    ]
}

/// The bytes of "metadata_type".
fn lit_metadata_type() -> (r: Vec<u8>)
    ensures
        r@ == spec_lit_metadata_type(),
{
    let r: Vec<u8> = vec![
        109u8, 101u8, 116u8, 97u8, 100u8, 97u8, 116u8, 97u8, 95u8, 116u8, 121u8, 112u8,
        101u8,
    ];
    proof {
        assert(r@ =~= spec_lit_metadata_type());
    }
    r
}

/// The bytes of "compliance_status": a location-rule key.
pub open spec fn spec_lit_compliance_status() -> Seq<u8> {
    seq![
        99u8, 111u8, 109u8, 112u8, 108u8, 105u8, 97u8, 110u8, 99u8, 101u8, 95u8, 115u8,
        116u8, 97u8, 116u8, 117u8, 115u8,
    ]
}

/// The bytes of "compliance_status".
fn lit_compliance_status() -> (r: Vec<u8>)
    ensures
        r@ == spec_lit_compliance_status(),
{
    let r: Vec<u8> = vec![
        99u8, 111u8, 109u8, 112u8, 108u8, 105u8, 97u8, 110u8, 99u8, 101u8, 95u8, 115u8,
        116u8, 97u8, 116u8, 117u8, 115u8,
    ];
    proof {
        assert(r@ =~= spec_lit_compliance_status());
    }
    r
}

/// The views of a sequence of byte strings.
pub open spec fn views_of(s: Seq<Vec<u8>>) -> Seq<Seq<u8>> {
    s.map_values(|v: Vec<u8>| v@)
}

/// The views of a sequence of key-value byte-string pairs.
pub open spec fn entry_views(s: Seq<(Vec<u8>, Vec<u8>)>) -> Seq<(Seq<u8>, Seq<u8>)> {
    s.map_values(|p: (Vec<u8>, Vec<u8>)| (p.0@, p.1@))
}

/// The view of an optional byte string.
pub open spec fn opt_view(o: Option<Vec<u8>>) -> Option<Seq<u8>> {
    match o {
        Some(v) => Some(v@),
        None => None,
    }
}

/// The sequence with every ASCII uppercase letter lowered to lowercase.
pub open spec fn spec_lowercased(s: Seq<u8>) -> Seq<u8> {
    Seq::new(s.len(), |k: int| spec_to_ascii_lowercase(s[k]))
}

/// The sequence with leading space bytes removed.
pub open spec fn spec_trim_leading_spaces(s: Seq<u8>) -> Seq<u8>
    decreases s.len(),
{
    if s.len() > 0 && s[0] == 32 {
        spec_trim_leading_spaces(s.skip(1))
    } else {
        s
    }
}

/// The sequence with trailing space bytes removed.
pub open spec fn spec_trim_trailing_spaces(s: Seq<u8>) -> Seq<u8>
    decreases s.len(),
{
    if s.len() > 0 && s[s.len() - 1] == 32 {
        spec_trim_trailing_spaces(s.drop_last())
    } else {
        s
    }
}

/// The sequence with leading and trailing space bytes removed.
pub open spec fn spec_trim_spaces(s: Seq<u8>) -> Seq<u8> {
    spec_trim_trailing_spaces(spec_trim_leading_spaces(s))
}

/// A copy of `s` with leading and trailing space bytes removed.
fn trim_spaces(s: &[u8]) -> (r: Vec<u8>)
    ensures
        r@ == spec_trim_spaces(s@),
{
    let n = s.len();
    let mut start: usize = 0;
    proof {
        assert(s@.skip(0) =~= s@);
    }
    while start < n && s[start] == 32
        invariant
            n == s@.len(),
            0 <= start <= n,
            spec_trim_leading_spaces(s@) == spec_trim_leading_spaces(s@.skip(start as int)),
        decreases n - start,
    {
        proof {
            assert(s@.skip(start as int)[0] == s@[start as int]);
            assert(s@.skip(start as int).skip(1) =~= s@.skip(start as int + 1));
        }
        start = start + 1;
    }
    proof {
        if start < n {
            assert(s@.skip(start as int)[0] == s@[start as int]);
        }
        assert(spec_trim_leading_spaces(s@) == s@.skip(start as int));
        assert(s@.subrange(start as int, n as int) =~= s@.skip(start as int));
    }
    let mut end: usize = n;
    while end > start && s[end - 1] == 32
        invariant
            n == s@.len(),
            0 <= start <= end <= n,
            spec_trim_trailing_spaces(s@.skip(start as int)) == spec_trim_trailing_spaces(
                s@.subrange(start as int, end as int),
            ),
        decreases end,
    {
        proof {
            assert(s@.subrange(start as int, end as int)[end - 1 - start] == s@[end - 1]);
            assert(s@.subrange(start as int, end as int).drop_last() =~= s@.subrange(
                start as int,
                end - 1,
            ));
        }
        end = end - 1;
    }
    proof {
        if end > start {
            assert(s@.subrange(start as int, end as int)[end - 1 - start] == s@[end - 1]);
        }
        assert(spec_trim_trailing_spaces(s@.subrange(start as int, end as int)) == s@.subrange(
            start as int,
            end as int,
        ));
    }
    let mut out: Vec<u8> = Vec::new();
    let mut i: usize = start;
    while i < end
        invariant
            start <= i <= end <= n,
            n == s@.len(),
            out@.len() == i - start,
            forall|k: int| 0 <= k < i - start ==> out@[k] == s@[start + k],
        decreases end - i,
    {
        out.push(s[i]);
        i = i + 1;
    }
    proof {
        assert(out@ =~= s@.subrange(start as int, end as int));
    }
    out
}

/// Closes one run of printable bytes: a run of at least three bytes whose
/// trimmed form still has at least three bytes contributes its trimmed form
/// to the accumulator.
pub open spec fn spec_flush_run(run: Seq<u8>, acc: Seq<Seq<u8>>) -> Seq<Seq<u8>> {
    if run.len() >= 3 && spec_trim_spaces(run).len() >= 3 {
        acc.push(spec_trim_spaces(run))
    } else {
        acc
    }
}

/// Scans the data for runs of printable ASCII bytes, closing the current
/// run at every unprintable byte and at the end.
pub open spec fn spec_scan_strings(data: Seq<u8>, run: Seq<u8>, acc: Seq<Seq<u8>>) -> Seq<Seq<u8>>
    decreases data.len(),
{
    if data.len() == 0 {
        spec_flush_run(run, acc)
    } else if spec_is_ascii_printable(data[0]) {
        spec_scan_strings(data.skip(1), run.push(data[0]), acc)
    } else {
        spec_scan_strings(data.skip(1), Seq::empty(), spec_flush_run(run, acc))
    }
}

/// The candidate strings in the raw record: every maximal run of printable
/// ASCII bytes that is at least three bytes long before and after trimming
/// spaces, trimmed, in order of appearance.
pub open spec fn spec_ascii_strings(data: Seq<u8>) -> Seq<Seq<u8>> {
    spec_scan_strings(data, Seq::empty(), Seq::empty())
}

/// Appending a byte string commutes with taking views.
proof fn lemma_views_of_push(s: Seq<Vec<u8>>, v: Vec<u8>)
    ensures
        views_of(s.push(v)) == views_of(s).push(v@),
{
    assert(views_of(s.push(v)) =~= views_of(s).push(v@));
}

/// Appending an entry commutes with taking views.
proof fn lemma_entry_views_push(s: Seq<(Vec<u8>, Vec<u8>)>, k: Vec<u8>, v: Vec<u8>)
    ensures
        entry_views(s.push((k, v))) == entry_views(s).push((k@, v@)),
{
    assert(entry_views(s.push((k, v))) =~= entry_views(s).push((k@, v@)));
}

/// Closes the current run into the output and clears it.
fn flush_run(run: &mut Vec<u8>, out: &mut Vec<Vec<u8>>)
    ensures
        final(run)@ == Seq::<u8>::empty(),
        views_of(final(out)@) == spec_flush_run(old(run)@, views_of(old(out)@)),
{
    if run.len() >= 3 {
        let trimmed = trim_spaces(run.as_slice());
        if trimmed.len() >= 3 {
            proof {
                lemma_views_of_push(out@, trimmed);
            }
            out.push(trimmed);
        }
    }
    run.clear();
}

/// Extracts the candidate strings from the raw record bytes.
fn extract_ascii_strings(data: &[u8]) -> (r: Vec<Vec<u8>>)
    ensures
        views_of(r@) == spec_ascii_strings(data@),
{
    let n = data.len();
    let mut run: Vec<u8> = Vec::new();
    let mut out: Vec<Vec<u8>> = Vec::new();
    proof {
        assert(data@.skip(0) =~= data@);
        assert(views_of(out@) =~= Seq::<Seq<u8>>::empty());
    }
    let mut i: usize = 0;
    while i < n
        invariant
            n == data@.len(),
            0 <= i <= n,
            spec_scan_strings(data@.skip(i as int), run@, views_of(out@)) == spec_ascii_strings(
                data@,
            ),
        decreases n - i,
    {
        proof {
            assert(data@.skip(i as int)[0] == data@[i as int]);
            assert(data@.skip(i as int).skip(1) =~= data@.skip(i as int + 1));
        }
        let b = data[i];
        if 32 <= b && b <= 126 {
            run.push(b);
        } else {
            flush_run(&mut run, &mut out);
        }
        i = i + 1;
    }
    flush_run(&mut run, &mut out);
    out
}

/// The decimal digits of `n`, as ASCII bytes, most significant first.
pub open spec fn spec_decimal(n: nat) -> Seq<u8>
    decreases n,
{
    if n < 10 {
        seq![(48 + n) as u8]
    } else {
        spec_decimal(n / 10).push((48 + n % 10) as u8)
    }
}

/// Appends the decimal digits of `n` to `out`.
fn push_decimal_digits(n: u64, out: &mut Vec<u8>)
    ensures
        final(out)@ == old(out)@ + spec_decimal(n as nat),
    decreases n,
{
    if n < 10 {
        out.push(48 + n as u8);
        proof {
            assert(out@ =~= old(out)@ + spec_decimal(n as nat));
        }
    } else {
        push_decimal_digits(n / 10, out);
        out.push(48 + (n % 10) as u8);
        proof {
            assert(out@ =~= old(out)@ + spec_decimal(n as nat));
        }
    }
}

/// The decimal digits of `n`, as ASCII bytes.
pub fn u64_to_decimal_bytes(n: u64) -> (r: Vec<u8>)
    ensures
        r@ == spec_decimal(n as nat),
{
    let mut out: Vec<u8> = Vec::new();
    push_decimal_digits(n, &mut out);
    proof {
        assert(out@ =~= spec_decimal(n as nat));
    }
    out
}

/// Structured metadata guessed from an asset's raw record: a name, a
/// symbol, a URI and a list of additional key-value fields.
#[derive(Debug)]
pub struct TokenMetadata {
    /// The guessed asset name.
    pub name: Vec<u8>,
    /// The guessed asset symbol.
    pub symbol: Vec<u8>,
    /// The guessed URI.
    pub uri: Vec<u8>,
    /// Additional key-value fields, bookkeeping and guessed patterns.
    pub additional_metadata: Vec<(Vec<u8>, Vec<u8>)>,
}

/// Whether a candidate string looks like an asset symbol: at most ten
/// bytes, all uppercase letters or digits.
pub open spec fn spec_is_symbol_like(s: Seq<u8>) -> bool {
    s.len() <= 10 && (forall|k: int|
        0 <= k < s.len() ==> spec_is_ascii_uppercase(#[trigger] s[k]) || spec_is_ascii_digit(s[k]))
}

/// How one candidate string changes the guessed (name, symbol, uri,
/// additional-fields) state: a URI prefix claims the URI slot, a
/// symbol-like string the symbol slot, a short-enough string the name slot;
/// each claim also records its source.
pub open spec fn spec_categorize_step(
    st: (Seq<u8>, Seq<u8>, Seq<u8>, Seq<(Seq<u8>, Seq<u8>)>),
    s: Seq<u8>,
) -> (Seq<u8>, Seq<u8>, Seq<u8>, Seq<(Seq<u8>, Seq<u8>)>) {
    if matches_at(s, spec_lit_http(), 0) {
        (st.0, st.1, s, st.3.push((spec_lit_uri_source(), spec_lit_extracted_from_account())))
    } else if spec_is_symbol_like(s) {
        (st.0, s, st.2, st.3.push((spec_lit_symbol_source(), spec_lit_extracted_from_account())))
    } else if 2 < s.len() <= 50 {
        (s, st.1, st.2, st.3.push((spec_lit_name_source(), spec_lit_extracted_from_account())))
    } else {
        st
    }
}

/// Folds [`spec_categorize_step`] over the candidate strings.
pub open spec fn spec_categorize(
    strings: Seq<Seq<u8>>,
    st: (Seq<u8>, Seq<u8>, Seq<u8>, Seq<(Seq<u8>, Seq<u8>)>),
) -> (Seq<u8>, Seq<u8>, Seq<u8>, Seq<(Seq<u8>, Seq<u8>)>)
    decreases strings.len(),
{
    if strings.len() == 0 {
        st
    } else {
        spec_categorize(strings.skip(1), spec_categorize_step(st, strings[0]))
    }
}

/// How one candidate string contributes guessed location-rule patterns: a
/// short comma-carrying string naming a known country fragment, a
/// colon-carrying string with round minutes, a short signed all-digit
/// string, and a braced string each record one pattern entry.
pub open spec fn spec_rwa_step(acc: Seq<(Seq<u8>, Seq<u8>)>, s: Seq<u8>) -> Seq<(Seq<u8>, Seq<u8>)> {
    let lower = spec_lowercased(s);
    let a1 = if s.len() <= 10 && contains_byte_spec(s, 44) && (contains_bytes(
        lower,
        spec_lit_us(),
    ) || contains_bytes(lower, spec_lit_ca()) || contains_bytes(lower, spec_lit_uk())) {
        acc.push((spec_lit_possible_allowed_countries(), s))
    } else {
        acc
    };
    let a2 = if contains_byte_spec(s, 58) && (contains_bytes(s, spec_lit_minutes_00())
        || contains_bytes(s, spec_lit_minutes_30())) {
        a1.push((spec_lit_possible_trading_hours(), s))
    } else {
        a1
    };
    let a3 = if s.len() > 0 && (s[0] == 43 || s[0] == 45) && s.len() <= 5 && (forall|k: int|
        1 <= k < s.len() ==> spec_is_ascii_digit(#[trigger] s[k])) {
        a2.push((spec_lit_possible_timezone_offset(), s))
    } else {
        a2
    };
    if s.len() > 0 && s[0] == 123 && s[s.len() - 1] == 125 {
        a3.push((spec_lit_possible_json_metadata(), s))
    } else {
        a3
    }
}

/// Folds [`spec_rwa_step`] over the candidate strings.
pub open spec fn spec_rwa_patterns(strings: Seq<Seq<u8>>, acc: Seq<(Seq<u8>, Seq<u8>)>) -> Seq<
    (Seq<u8>, Seq<u8>),
>
    decreases strings.len(),
{
    if strings.len() == 0 {
        acc
    } else {
        spec_rwa_patterns(strings.skip(1), spec_rwa_step(acc, strings[0]))
    }
}

/// What the pattern-matching parse of a raw asset record guesses: the
/// (name, symbol, uri) slots from the candidate strings — starting from the
/// fallback name and symbol — and the additional fields: one source entry
/// per claimed slot, the three bookkeeping entries, then the location-rule
/// pattern entries.
pub open spec fn spec_parsed_metadata(data: Seq<u8>) -> (
    Seq<u8>,
    Seq<u8>,
    Seq<u8>,
    Seq<(Seq<u8>, Seq<u8>)>,
) {
    let strings = spec_ascii_strings(data);
    let st = spec_categorize(
        strings,
        (spec_lit_unknown_token(), spec_lit_unk(), Seq::empty(), Seq::empty()),
    );
    let with_fixed = st.3.push((spec_lit_parsing_method(), spec_lit_pattern_matching())).push(
        (spec_lit_account_size(), spec_decimal(data.len())),
    ).push((spec_lit_strings_found(), spec_decimal(strings.len())));
    (st.0, st.1, st.2, spec_rwa_patterns(strings, with_fixed))
}

/// Whether every byte after the first is an ASCII digit.
fn tail_all_digits(s: &[u8]) -> (r: bool)
    requires
        s@.len() >= 1,
    ensures
        r == (forall|k: int| 1 <= k < s@.len() ==> spec_is_ascii_digit(#[trigger] s@[k])),
{
    let n = s.len();
    let mut i: usize = 1;
    while i < n
        invariant
            n == s@.len(),
            1 <= i <= n,
            forall|k: int| 1 <= k < i ==> spec_is_ascii_digit(#[trigger] s@[k]),
        decreases n - i,
    {
        let b = s[i];
        if !(48 <= b && b <= 57) {
            return false;
        }
        i = i + 1;
    }
    true
}

/// Whether every byte is an ASCII uppercase letter or digit.
fn all_upper_or_digit(s: &[u8]) -> (r: bool)
    ensures
        r == (forall|k: int|
            0 <= k < s@.len() ==> spec_is_ascii_uppercase(#[trigger] s@[k]) || spec_is_ascii_digit(
                s@[k],
            )),
{
    let n = s.len();
    let mut i: usize = 0;
    while i < n
        invariant
            n == s@.len(),
            0 <= i <= n,
            forall|k: int|
                0 <= k < i ==> spec_is_ascii_uppercase(#[trigger] s@[k]) || spec_is_ascii_digit(
                    s@[k],
                ),
        decreases n - i,
    {
        let b = s[i];
        if !((65 <= b && b <= 90) || (48 <= b && b <= 57)) {
            return false;
        }
        i = i + 1;
    }
    true
}

/// The heuristic parser over an asset's raw record bytes.
pub struct Token2022MetadataParser;

impl Token2022MetadataParser {
    /// Guesses structured metadata from the raw record bytes by pattern
    /// matching.  The guess always succeeds; it is best-effort and never
    /// authoritative.
    pub fn parse_metadata_from_mint(account_data: &[u8]) -> (r: Result<TokenMetadata, PoolError>)
        ensures
            r matches Ok(m) && {
                let parsed = spec_parsed_metadata(account_data@);
                &&& m.name@ == parsed.0
                &&& m.symbol@ == parsed.1
                &&& m.uri@ == parsed.2
                &&& entry_views(m.additional_metadata@) == parsed.3
            },
    {
        Ok(Self::extract_metadata_from_account_data(account_data))
    }

    /// The pattern-matching pass itself: scan for candidate strings,
    /// categorize them into the name, symbol and URI slots, record the
    /// bookkeeping entries, then the location-rule patterns.
    fn extract_metadata_from_account_data(account_data: &[u8]) -> (m: TokenMetadata)
        ensures
            ({
                let parsed = spec_parsed_metadata(account_data@);
                &&& m.name@ == parsed.0
                &&& m.symbol@ == parsed.1
                &&& m.uri@ == parsed.2
                &&& entry_views(m.additional_metadata@) == parsed.3
            }),
    {
        let strings = extract_ascii_strings(account_data);
        let ghost strings_view = views_of(strings@);
        let mut name = lit_unknown_token();
        let mut symbol = lit_unk();
        let mut uri: Vec<u8> = Vec::new();
        let mut additional: Vec<(Vec<u8>, Vec<u8>)> = Vec::new();
        proof {
            assert(strings_view.skip(0) =~= strings_view);
            assert(entry_views(additional@) =~= Seq::<(Seq<u8>, Seq<u8>)>::empty());
        }
        let n = strings.len();
        let mut i: usize = 0;
        while i < n
            invariant
                n == strings@.len(),
                0 <= i <= n,
                strings_view == views_of(strings@),
                spec_categorize(
                    strings_view.skip(i as int),
                    (name@, symbol@, uri@, entry_views(additional@)),
                ) == spec_categorize(
                    strings_view,
                    (spec_lit_unknown_token(), spec_lit_unk(), Seq::empty(), Seq::empty()),
                ),
            decreases n - i,
        {
            proof {
                assert(strings_view.skip(i as int)[0] == strings_view[i as int]);
                assert(strings_view.skip(i as int).skip(1) =~= strings_view.skip(i as int + 1));
                assert(strings_view[i as int] == strings@[i as int]@);
            }
            let ghost pre = (name@, symbol@, uri@, entry_views(additional@));
            let s = &strings[i];
            let http = lit_http();
            if starts_with_bytes(s.as_slice(), http.as_slice()) {
                uri = copy_bytes(s.as_slice());
                let ghost before = additional@;
                additional.push((lit_uri_source(), lit_extracted_from_account()));
                proof {
                    assert(entry_views(additional@) =~= entry_views(before).push(
                        (spec_lit_uri_source(), spec_lit_extracted_from_account()),
                    ));
                }
            } else if s.len() <= 10 && all_upper_or_digit(s.as_slice()) {
                symbol = copy_bytes(s.as_slice());
                let ghost before = additional@;
                additional.push((lit_symbol_source(), lit_extracted_from_account()));
                proof {
                    assert(entry_views(additional@) =~= entry_views(before).push(
                        (spec_lit_symbol_source(), spec_lit_extracted_from_account()),
                    ));
                }
            } else if 2 < s.len() && s.len() <= 50 {
                name = copy_bytes(s.as_slice());
                let ghost before = additional@;
                additional.push((lit_name_source(), lit_extracted_from_account()));
                proof {
                    assert(entry_views(additional@) =~= entry_views(before).push(
                        (spec_lit_name_source(), spec_lit_extracted_from_account()),
                    ));
                }
            }
            proof {
                assert((name@, symbol@, uri@, entry_views(additional@)) == spec_categorize_step(
                    pre,
                    strings_view[i as int],
                ));
            }
            i = i + 1;
        }
        let ghost categorized = entry_views(additional@);
        additional.push((lit_parsing_method(), lit_pattern_matching()));
        additional.push((lit_account_size(), u64_to_decimal_bytes(account_data.len() as u64)));
        additional.push((lit_strings_found(), u64_to_decimal_bytes(n as u64)));
        proof {
            assert(entry_views(additional@) =~= categorized.push(
                (spec_lit_parsing_method(), spec_lit_pattern_matching()),
            ).push((spec_lit_account_size(), spec_decimal(account_data@.len()))).push(
                (spec_lit_strings_found(), spec_decimal(strings_view.len())),
            ));
            assert(strings_view.skip(0) =~= strings_view);
        }
        let mut j: usize = 0;
        while j < n
            invariant
                n == strings@.len(),
                0 <= j <= n,
                strings_view == views_of(strings@),
                name@ == spec_parsed_metadata(account_data@).0,
                symbol@ == spec_parsed_metadata(account_data@).1,
                uri@ == spec_parsed_metadata(account_data@).2,
                spec_rwa_patterns(strings_view.skip(j as int), entry_views(additional@))
                    == spec_parsed_metadata(account_data@).3,
            decreases n - j,
        {
            proof {
                assert(strings_view.skip(j as int)[0] == strings_view[j as int]);
                assert(strings_view.skip(j as int).skip(1) =~= strings_view.skip(j as int + 1));
                assert(strings_view[j as int] == strings@[j as int]@);
            }
            let ghost pre = entry_views(additional@);
            let s = &strings[j];
            let lower = to_ascii_lowercase_bytes(s.as_slice());
            proof {
                assert(lower@ =~= spec_lowercased(strings_view[j as int]));
            }
            let us = lit_us();
            let ca = lit_ca();
            let uk = lit_uk();
            if s.len() <= 10 && contains_byte(s.as_slice(), 44) && (contains_subslice(
                lower.as_slice(),
                us.as_slice(),
            ) || contains_subslice(lower.as_slice(), ca.as_slice()) || contains_subslice(
                lower.as_slice(),
                uk.as_slice(),
            )) {
                let ghost before = additional@;
                additional.push((lit_possible_allowed_countries(), copy_bytes(s.as_slice())));
                proof {
                    assert(entry_views(additional@) =~= entry_views(before).push(
                        (spec_lit_possible_allowed_countries(), strings_view[j as int]),
                    ));
                }
            }
            let m00 = lit_minutes_00();
            let m30 = lit_minutes_30();
            if contains_byte(s.as_slice(), 58) && (contains_subslice(s.as_slice(), m00.as_slice())
                || contains_subslice(s.as_slice(), m30.as_slice())) {
                let ghost before = additional@;
                additional.push((lit_possible_trading_hours(), copy_bytes(s.as_slice())));
                proof {
                    assert(entry_views(additional@) =~= entry_views(before).push(
                        (spec_lit_possible_trading_hours(), strings_view[j as int]),
                    ));
                }
            }
            if s.len() > 0 && (s[0] == 43 || s[0] == 45) && s.len() <= 5 && tail_all_digits(
                s.as_slice(),
            ) {
                let ghost before = additional@;
                additional.push((lit_possible_timezone_offset(), copy_bytes(s.as_slice())));
                proof {
                    assert(entry_views(additional@) =~= entry_views(before).push(
                        (spec_lit_possible_timezone_offset(), strings_view[j as int]),
                    ));
                }
            }
            if s.len() > 0 && s[0] == 123 && s[s.len() - 1] == 125 {
                let ghost before = additional@;
                additional.push((lit_possible_json_metadata(), copy_bytes(s.as_slice())));
                proof {
                    assert(entry_views(additional@) =~= entry_views(before).push(
                        (spec_lit_possible_json_metadata(), strings_view[j as int]),
                    ));
                }
            }
            proof {
                assert(entry_views(additional@) == spec_rwa_step(pre, strings_view[j as int]));
            }
            j = j + 1;
        }
        TokenMetadata { name, symbol, uri, additional_metadata: additional }
    }
}

/// The value of the first additional field whose key is `key`, if any.
pub open spec fn spec_get_field(entries: Seq<(Seq<u8>, Seq<u8>)>, key: Seq<u8>) -> Option<Seq<u8>>
    decreases entries.len(),
{
    if entries.len() == 0 {
        None
    } else if entries[0].0 == key {
        Some(entries[0].1)
    } else {
        spec_get_field(entries.skip(1), key)
    }
}

/// Location-rule fields commonly declared by a regulated asset, each
/// guessed from the additional metadata and so never authoritative.
#[derive(Debug)]
pub struct RwaMetadata {
    /// A comma-separated list of allowed country codes.
    pub allowed_countries: Option<Vec<u8>>,
    /// A comma-separated list of restricted subdivision codes.
    pub restricted_states: Option<Vec<u8>>,
    /// A declaration of trading hours.
    pub trading_hours: Option<Vec<u8>>,
    /// An offset from universal time.
    pub timezone_offset: Option<Vec<u8>>,
    /// The kind of location-rule metadata.
    pub metadata_type: Option<Vec<u8>>,
    /// The declared compliance status.
    pub compliance_status: Option<Vec<u8>>,
}

impl Token2022MetadataParser {
    /// The value of the first additional field stored under `field_key`.
    pub fn get_metadata_field(metadata: &TokenMetadata, field_key: &[u8]) -> (r: Option<Vec<u8>>)
        ensures
            opt_view(r) == spec_get_field(entry_views(metadata.additional_metadata@), field_key@),
    {
        let ghost entries = entry_views(metadata.additional_metadata@);
        proof {
            assert(entries.skip(0) =~= entries);
        }
        let n = metadata.additional_metadata.len();
        let mut i: usize = 0;
        while i < n
            invariant
                n == metadata.additional_metadata@.len(),
                0 <= i <= n,
                entries == entry_views(metadata.additional_metadata@),
                spec_get_field(entries.skip(i as int), field_key@) == spec_get_field(
                    entries,
                    field_key@,
                ),
            decreases n - i,
        {
            proof {
                assert(entries.skip(i as int)[0] == entries[i as int]);
                assert(entries.skip(i as int).skip(1) =~= entries.skip(i as int + 1));
                assert(entries[i as int] == (
                    metadata.additional_metadata@[i as int].0@,
                    metadata.additional_metadata@[i as int].1@,
                ));
            }
            let entry = &metadata.additional_metadata[i];
            if bytes_eq(entry.0.as_slice(), field_key) {
                return Some(copy_bytes(entry.1.as_slice()));
            }
            i = i + 1;
        }
        None
    }

    /// The location-rule fields: each is the value of its well-known key in
    /// the additional metadata, when present.
    pub fn extract_rwa_metadata(metadata: &TokenMetadata) -> (r: RwaMetadata)
        ensures
            ({
                let entries = entry_views(metadata.additional_metadata@);
                &&& opt_view(r.allowed_countries) == spec_get_field(
                    entries,
                    spec_lit_allowed_countries(),
                )
                &&& opt_view(r.restricted_states) == spec_get_field(
                    entries,
                    spec_lit_restricted_states(),
                )
                &&& opt_view(r.trading_hours) == spec_get_field(entries, spec_lit_trading_hours())
                &&& opt_view(r.timezone_offset) == spec_get_field(
                    entries,
                    spec_lit_timezone_offset(),
                )
                &&& opt_view(r.metadata_type) == spec_get_field(entries, spec_lit_metadata_type())
                &&& opt_view(r.compliance_status) == spec_get_field(
                    entries,
                    spec_lit_compliance_status(),
                )
            }),
    {
        let key_allowed = lit_allowed_countries();
        let key_restricted = lit_restricted_states();
        let key_hours = lit_trading_hours();
        let key_offset = lit_timezone_offset();
        let key_type = lit_metadata_type();
        let key_status = lit_compliance_status();
        RwaMetadata {
            allowed_countries: Self::get_metadata_field(metadata, key_allowed.as_slice()),
            restricted_states: Self::get_metadata_field(metadata, key_restricted.as_slice()),
            trading_hours: Self::get_metadata_field(metadata, key_hours.as_slice()),
            timezone_offset: Self::get_metadata_field(metadata, key_offset.as_slice()),
            metadata_type: Self::get_metadata_field(metadata, key_type.as_slice()),
            compliance_status: Self::get_metadata_field(metadata, key_status.as_slice()),
        }
    }
}

impl RwaMetadata {
    /// The raw trading-hours declaration, handed back as it was guessed.
    pub fn parse_trading_hours(&self) -> (r: Option<Vec<u8>>)
        ensures
            opt_view(r) == opt_view(self.trading_hours),
    {
        match &self.trading_hours {
            Some(v) => Some(copy_bytes(v.as_slice())),
            None => None,
        }
    }

    /// Whether `country_code` occurs in the allowed-countries declaration;
    /// false when the asset declares none.
    pub fn is_country_allowed(&self, country_code: &[u8]) -> (r: bool)
        ensures
            r == match opt_view(self.allowed_countries) {
                Some(allowed) => contains_bytes(allowed, country_code@),
                None => false,
            },
    {
        match &self.allowed_countries {
            Some(allowed) => contains_subslice(allowed.as_slice(), country_code),
            None => false,
        }
    }

    /// Whether `state_code` occurs in the restricted-subdivisions
    /// declaration; false when the asset declares none.
    pub fn is_state_restricted(&self, state_code: &[u8]) -> (r: bool)
        ensures
            r == match opt_view(self.restricted_states) {
                Some(restricted) => contains_bytes(restricted, state_code@),
                None => false,
            },
    {
        match &self.restricted_states {
            Some(restricted) => contains_subslice(restricted.as_slice(), state_code),
            None => false,
        }
    }
}

/// What reading one type-length-value entry at `offset` yields: the 32-bit
/// little-endian type, the `length` payload bytes that follow the 8-byte
/// header, and the offset just past the entry — or nothing when the header
/// or payload would run past the end of the data.
pub open spec fn spec_tlv_entry_at(data: Seq<u8>, offset: int) -> Option<(u32, Seq<u8>, int)> {
    if offset + 8 > data.len() {
        None
    } else {
        let entry_type = vstd::bytes::spec_u32_from_le_bytes(data.subrange(offset, offset + 4));
        let length = vstd::bytes::spec_u32_from_le_bytes(data.subrange(offset + 4, offset + 8));
        if offset + 8 + length > data.len() {
            None
        } else {
            Some((entry_type, data.subrange(offset + 8, offset + 8 + length), offset + 8 + length))
        }
    }
}

/// A cursor over the type-length-value entries of a raw record: each entry
/// is a 4-byte type, a 4-byte length and that many payload bytes.
pub struct TlvIterator {
    /// The record bytes the cursor walks.
    pub data: Vec<u8>,
    /// The position of the next entry.
    pub offset: usize,
}

impl TlvIterator {
    /// The walked bytes, in specifications.
    pub open spec fn spec_data(&self) -> Seq<u8> {
        self.data@
    }

    /// The cursor position, in specifications.
    pub open spec fn spec_offset(&self) -> int {
        self.offset as int
    }

    /// A cursor over `data` starting at `start_offset`.
    pub fn new(data: &[u8], start_offset: usize) -> (r: TlvIterator)
        ensures
            r.spec_data() == data@,
            r.spec_offset() == start_offset as int,
    {
        TlvIterator { data: copy_bytes(data), offset: start_offset }
    }

    /// Reads the entry at the cursor and advances past it; `None` when no
    /// whole entry is left, the cursor then staying put.
    pub fn next(&mut self) -> (r: Option<(u32, Vec<u8>)>)
        ensures
            final(self).spec_data() == old(self).spec_data(),
            match spec_tlv_entry_at(old(self).spec_data(), old(self).spec_offset()) {
                None => r is None && final(self).spec_offset() == old(self).spec_offset(),
                Some(entry) => {
                    &&& r matches Some(pair) && pair.0 == entry.0 && pair.1@ == entry.1
                    &&& final(self).spec_offset() == entry.2
                },
            },
    {
        let n = self.data.len();
        if self.offset > n || n - self.offset < 8 {
            return None;
        }
        let header = self.data.as_slice();
        let entry_type = vstd::bytes::u32_from_le_bytes(
            slice_subrange(header, self.offset, self.offset + 4),
        );
        let length = vstd::bytes::u32_from_le_bytes(
            slice_subrange(header, self.offset + 4, self.offset + 8),
        );
        let payload_start = self.offset + 8;
        if length as usize > n - payload_start {
            return None;
        }
        let payload = copy_bytes(
            slice_subrange(header, payload_start, payload_start + length as usize),
        );
        self.offset = payload_start + length as usize;
        Some((entry_type, payload))
    }
}

/// The bytes of `s` from `from` (inclusive) to `to` (exclusive).
fn slice_subrange(s: &[u8], from: usize, to: usize) -> (r: &[u8])
    requires
        0 <= from <= to <= s@.len(),
    ensures
        r@ == s@.subrange(from as int, to as int),
{
    &s[from..to]
}

/// The bytes of "uri": the URI slot's key.
pub open spec fn spec_lit_key_uri() -> Seq<u8> {
    seq![
        117u8, 114u8, 105u8,
    ]
}

/// The bytes of "uri".
fn lit_key_uri() -> (r: Vec<u8>)
    ensures
        r@ == spec_lit_key_uri(),
{
    let r: Vec<u8> = vec![
        117u8, 114u8, 105u8,
    ];
    proof {
        assert(r@ =~= spec_lit_key_uri());
    }
    r
}

/// The bytes of "symbol": the symbol slot's key.
pub open spec fn spec_lit_key_symbol() -> Seq<u8> {
    seq![
        115u8, 121u8, 109u8, 98u8, 111u8, 108u8,
    ]
}

/// The bytes of "symbol".
fn lit_key_symbol() -> (r: Vec<u8>)
    ensures
        r@ == spec_lit_key_symbol(),
{
    let r: Vec<u8> = vec![
        115u8, 121u8, 109u8, 98u8, 111u8, 108u8,
    ];
    proof {
        assert(r@ =~= spec_lit_key_symbol());
    }
    r
}

/// The bytes of "name": the name slot's key.
pub open spec fn spec_lit_key_name() -> Seq<u8> {
    seq![
        110u8, 97u8, 109u8, 101u8,
    ]
}

/// The bytes of "name".
fn lit_key_name() -> (r: Vec<u8>)
    ensures
        r@ == spec_lit_key_name(),
{
    let r: Vec<u8> = vec![
        110u8, 97u8, 109u8, 101u8,
    ];
    proof {
        assert(r@ =~= spec_lit_key_name());
    }
    r
}

/// The bytes of "extraction_method": a bookkeeping key.
pub open spec fn spec_lit_key_extraction_method() -> Seq<u8> {
    seq![
        101u8, 120u8, 116u8, 114u8, 97u8, 99u8, 116u8, 105u8, 111u8, 110u8, 95u8, 109u8,
        101u8, 116u8, 104u8, 111u8, 100u8,
    ]
}

/// The bytes of "extraction_method".
fn lit_key_extraction_method() -> (r: Vec<u8>)
    ensures
        r@ == spec_lit_key_extraction_method(),
{
    let r: Vec<u8> = vec![
        101u8, 120u8, 116u8, 114u8, 97u8, 99u8, 116u8, 105u8, 111u8, 110u8, 95u8, 109u8,
        101u8, 116u8, 104u8, 111u8, 100u8,
    ];
    proof {
        assert(r@ =~= spec_lit_key_extraction_method());
    }
    r
}

/// The bytes of "heuristic_pattern_matching": a bookkeeping value.
pub open spec fn spec_lit_heuristic_pattern_matching() -> Seq<u8> {
    seq![
        104u8, 101u8, 117u8, 114u8, 105u8, 115u8, 116u8, 105u8, 99u8, 95u8, 112u8, 97u8,
        116u8, 116u8, 101u8, 114u8, 110u8, 95u8, 109u8, 97u8, 116u8, 99u8, 104u8, 105u8,
        110u8, 103u8,
    ]
}

/// The bytes of "heuristic_pattern_matching".
fn lit_heuristic_pattern_matching() -> (r: Vec<u8>)
    ensures
        r@ == spec_lit_heuristic_pattern_matching(),
{
    let r: Vec<u8> = vec![
        104u8, 101u8, 117u8, 114u8, 105u8, 115u8, 116u8, 105u8, 99u8, 95u8, 112u8, 97u8,
        116u8, 116u8, 101u8, 114u8, 110u8, 95u8, 109u8, 97u8, 116u8, 99u8, 104u8, 105u8,
        110u8, 103u8,
    ];
    proof {
        assert(r@ =~= spec_lit_heuristic_pattern_matching());
    }
    r
}

/// Inserting under a key replaces the value at the key's first entry, or
/// appends a fresh entry for an unseen key; every key stays unique and in
/// first-insertion order.
pub open spec fn spec_assoc_insert(
    entries: Seq<(Seq<u8>, Seq<u8>)>,
    key: Seq<u8>,
    value: Seq<u8>,
) -> Seq<(Seq<u8>, Seq<u8>)>
    decreases entries.len(),
{
    if entries.len() == 0 {
        seq![(key, value)]
    } else if entries[0].0 == key {
        seq![(key, value)] + entries.skip(1)
    } else {
        seq![entries[0]] + spec_assoc_insert(entries.skip(1), key, value)
    }
}

/// Inserting under a key that the entries hold updates the key's entry in
/// place.
proof fn lemma_assoc_insert_found(
    entries: Seq<(Seq<u8>, Seq<u8>)>,
    key: Seq<u8>,
    value: Seq<u8>,
    i: int,
)
    requires
        0 <= i < entries.len(),
        entries[i].0 == key,
        forall|k: int| 0 <= k < i ==> (#[trigger] entries[k]).0 != key,
    ensures
        spec_assoc_insert(entries, key, value) == entries.update(i, (key, value)),
    decreases i,
{
    if i == 0 {
        assert(seq![(key, value)] + entries.skip(1) =~= entries.update(0, (key, value)));
    } else {
        assert(entries[0].0 != key);
        assert forall|k: int| 0 <= k < i - 1 implies (#[trigger] entries.skip(1)[k]).0 != key by {
            assert(entries.skip(1)[k] == entries[k + 1]);
        }
        lemma_assoc_insert_found(entries.skip(1), key, value, i - 1);
        assert(seq![entries[0]] + entries.skip(1).update(i - 1, (key, value)) =~= entries.update(
            i,
            (key, value),
        ));
    }
}

/// Inserting under a key that the entries lack appends a fresh entry.
proof fn lemma_assoc_insert_missing(entries: Seq<(Seq<u8>, Seq<u8>)>, key: Seq<u8>, value: Seq<u8>)
    requires
        forall|k: int| 0 <= k < entries.len() ==> (#[trigger] entries[k]).0 != key,
    ensures
        spec_assoc_insert(entries, key, value) == entries.push((key, value)),
    decreases entries.len(),
{
    if entries.len() == 0 {
        assert(seq![(key, value)] =~= entries.push((key, value)));
    } else {
        assert forall|k: int|
            0 <= k < entries.skip(1).len() implies (#[trigger] entries.skip(1)[k]).0 != key by {
            assert(entries.skip(1)[k] == entries[k + 1]);
        }
        lemma_assoc_insert_missing(entries.skip(1), key, value);
        assert(seq![entries[0]] + entries.skip(1).push((key, value)) =~= entries.push(
            (key, value),
        ));
    }
}

/// Inserts `value` under `key`, replacing the value of the key's entry when
/// one exists and appending a fresh entry otherwise.
fn assoc_insert(entries: &mut Vec<(Vec<u8>, Vec<u8>)>, key: Vec<u8>, value: Vec<u8>)
    ensures
        entry_views(final(entries)@) == spec_assoc_insert(
            entry_views(old(entries)@),
            key@,
            value@,
        ),
{
    let ghost entry_seq = entry_views(entries@);
    let n = entries.len();
    let mut i: usize = 0;
    while i < n
        invariant
            n == entries@.len(),
            0 <= i <= n,
            entries@ == old(entries)@,
            entry_seq == entry_views(entries@),
            forall|k: int| 0 <= k < i ==> (#[trigger] entry_seq[k]).0 != key@,
        decreases n - i,
    {
        proof {
            assert(entry_seq[i as int] == (entries@[i as int].0@, entries@[i as int].1@));
        }
        if bytes_eq(entries[i].0.as_slice(), key.as_slice()) {
            entries.remove(i);
            entries.insert(i, (key, value));
            proof {
                lemma_assoc_insert_found(entry_seq, key@, value@, i as int);
                assert(entry_views(entries@) =~= entry_seq.update(i as int, (key@, value@)));
            }
            return;
        }
        i = i + 1;
    }
    entries.push((key, value));
    proof {
        lemma_assoc_insert_missing(entry_seq, key@, value@);
        assert(entry_views(entries@) =~= entry_seq.push((key@, value@)));
    }
}

/// How one completed run changes the simplified pattern map: a run naming a
/// URI claims the URI slot, a short uppercase-or-digit run the symbol slot,
/// any other short-enough run the name slot; each slot keeps its latest
/// claim.
pub open spec fn spec_simple_step(
    patterns: Seq<(Seq<u8>, Seq<u8>)>,
    run: Seq<u8>,
) -> Seq<(Seq<u8>, Seq<u8>)> {
    if contains_bytes(run, spec_lit_http()) {
        spec_assoc_insert(patterns, spec_lit_key_uri(), run)
    } else if run.len() < 20 && (forall|k: int|
        0 <= k < run.len() ==> spec_is_ascii_uppercase(#[trigger] run[k]) || spec_is_ascii_digit(
            run[k],
        )) {
        spec_assoc_insert(patterns, spec_lit_key_symbol(), run)
    } else if run.len() < 50 {
        spec_assoc_insert(patterns, spec_lit_key_name(), run)
    } else {
        patterns
    }
}

/// The simplified scan: runs of printable bytes longer than three bytes are
/// categorized as they close; a run still open at the end is discarded.
pub open spec fn spec_simple_scan(
    data: Seq<u8>,
    run: Seq<u8>,
    patterns: Seq<(Seq<u8>, Seq<u8>)>,
) -> Seq<(Seq<u8>, Seq<u8>)>
    decreases data.len(),
{
    if data.len() == 0 {
        patterns
    } else if spec_is_ascii_printable(data[0]) {
        spec_simple_scan(data.skip(1), run.push(data[0]), patterns)
    } else if run.len() > 3 {
        spec_simple_scan(data.skip(1), Seq::empty(), spec_simple_step(patterns, run))
    } else {
        spec_simple_scan(data.skip(1), Seq::empty(), patterns)
    }
}

/// The simplified pattern map of a raw record: the categorized runs, then
/// the two bookkeeping entries.
pub open spec fn spec_simple_patterns(data: Seq<u8>) -> Seq<(Seq<u8>, Seq<u8>)> {
    let scanned = spec_simple_scan(data, Seq::empty(), Seq::empty());
    let with_method = spec_assoc_insert(
        scanned,
        spec_lit_key_extraction_method(),
        spec_lit_heuristic_pattern_matching(),
    );
    spec_assoc_insert(with_method, spec_lit_account_size(), spec_decimal(data.len()))
}

/// What the simplified parse guesses: each slot from its key in the pattern
/// map, with the fallback name and symbol and an empty URI, and the whole
/// map as the additional fields.
pub open spec fn spec_parse_metadata_simple(data: Seq<u8>) -> (
    Seq<u8>,
    Seq<u8>,
    Seq<u8>,
    Seq<(Seq<u8>, Seq<u8>)>,
) {
    let patterns = spec_simple_patterns(data);
    let name = match spec_get_field(patterns, spec_lit_key_name()) {
        Some(v) => v,
        None => spec_lit_unknown_token(),
    };
    let symbol = match spec_get_field(patterns, spec_lit_key_symbol()) {
        Some(v) => v,
        None => spec_lit_unk(),
    };
    let uri = match spec_get_field(patterns, spec_lit_key_uri()) {
        Some(v) => v,
        None => Seq::empty(),
    };
    (name, symbol, uri, patterns)
}

/// Categorizes one completed run into the pattern map.
fn simple_flush(patterns: &mut Vec<(Vec<u8>, Vec<u8>)>, run: &Vec<u8>)
    ensures
        entry_views(final(patterns)@) == spec_simple_step(entry_views(old(patterns)@), run@),
{
    let http = lit_http();
    if contains_subslice(run.as_slice(), http.as_slice()) {
        assoc_insert(patterns, lit_key_uri(), copy_bytes(run.as_slice()));
    } else if run.len() < 20 && all_upper_or_digit(run.as_slice()) {
        assoc_insert(patterns, lit_key_symbol(), copy_bytes(run.as_slice()));
    } else if run.len() < 50 {
        assoc_insert(patterns, lit_key_name(), copy_bytes(run.as_slice()));
    }
}

/// Extracts the simplified pattern map from the raw record bytes.
fn extract_string_patterns(data: &[u8]) -> (r: Vec<(Vec<u8>, Vec<u8>)>)
    ensures
        entry_views(r@) == spec_simple_patterns(data@),
{
    let n = data.len();
    let mut run: Vec<u8> = Vec::new();
    let mut patterns: Vec<(Vec<u8>, Vec<u8>)> = Vec::new();
    proof {
        assert(data@.skip(0) =~= data@);
        assert(entry_views(patterns@) =~= Seq::<(Seq<u8>, Seq<u8>)>::empty());
    }
    let mut i: usize = 0;
    while i < n
        invariant
            n == data@.len(),
            0 <= i <= n,
            spec_simple_scan(data@.skip(i as int), run@, entry_views(patterns@))
                == spec_simple_scan(data@, Seq::empty(), Seq::empty()),
        decreases n - i,
    {
        proof {
            assert(data@.skip(i as int)[0] == data@[i as int]);
            assert(data@.skip(i as int).skip(1) =~= data@.skip(i as int + 1));
        }
        let b = data[i];
        if 32 <= b && b <= 126 {
            run.push(b);
        } else {
            if run.len() > 3 {
                simple_flush(&mut patterns, &run);
            }
            run.clear();
        }
        i = i + 1;
    }
    assoc_insert(&mut patterns, lit_key_extraction_method(), lit_heuristic_pattern_matching());
    assoc_insert(&mut patterns, lit_account_size(), u64_to_decimal_bytes(data.len() as u64));
    patterns
}

/// Looks a key up in an association list; the first entry wins.
fn assoc_get(entries: &Vec<(Vec<u8>, Vec<u8>)>, key: &[u8]) -> (r: Option<Vec<u8>>)
    ensures
        opt_view(r) == spec_get_field(entry_views(entries@), key@),
{
    let ghost entry_seq = entry_views(entries@);
    proof {
        assert(entry_seq.skip(0) =~= entry_seq);
    }
    let n = entries.len();
    let mut i: usize = 0;
    while i < n
        invariant
            n == entries@.len(),
            0 <= i <= n,
            entry_seq == entry_views(entries@),
            spec_get_field(entry_seq.skip(i as int), key@) == spec_get_field(entry_seq, key@),
        decreases n - i,
    {
        proof {
            assert(entry_seq.skip(i as int)[0] == entry_seq[i as int]);
            assert(entry_seq.skip(i as int).skip(1) =~= entry_seq.skip(i as int + 1));
            assert(entry_seq[i as int] == (entries@[i as int].0@, entries@[i as int].1@));
        }
        let pair = &entries[i];
        if bytes_eq(pair.0.as_slice(), key) {
            return Some(copy_bytes(pair.1.as_slice()));
        }
        i = i + 1;
    }
    None
}

impl Token2022MetadataParser {
    /// The simplified, fallback parse: a cruder scan that keeps only the
    /// latest claim per slot.  It always succeeds and is never
    /// authoritative.
    pub fn parse_metadata_simple(account_data: &[u8]) -> (r: Result<TokenMetadata, PoolError>)
        ensures
            r matches Ok(m) && {
                let parsed = spec_parse_metadata_simple(account_data@);
                &&& m.name@ == parsed.0
                &&& m.symbol@ == parsed.1
                &&& m.uri@ == parsed.2
                &&& entry_views(m.additional_metadata@) == parsed.3
            },
    {
        let patterns = extract_string_patterns(account_data);
        let key_name = lit_key_name();
        let name = match assoc_get(&patterns, key_name.as_slice()) {
            Some(v) => v,
            None => lit_unknown_token(),
        };
        let key_symbol = lit_key_symbol();
        let symbol = match assoc_get(&patterns, key_symbol.as_slice()) {
            Some(v) => v,
            None => lit_unk(),
        };
        let key_uri = lit_key_uri();
        let uri = match assoc_get(&patterns, key_uri.as_slice()) {
            Some(v) => v,
            None => Vec::new(),
        };
        proof {
            if spec_get_field(
                entry_views(patterns@),
                spec_lit_key_uri(),
            ) is None {
                assert(uri@ =~= Seq::<u8>::empty());
            }
        }
        Ok(TokenMetadata { name, symbol, uri, additional_metadata: patterns })
    }
}

} // verus!
