use gated_swap::metadata::u64_to_decimal_bytes;
use gated_swap::metadata::RwaMetadata;
use gated_swap::metadata::TlvIterator;
use gated_swap::metadata::Token2022MetadataParser;
use gated_swap::metadata::TokenMetadata;

fn entry(key: &[u8], value: &[u8]) -> (Vec<u8>, Vec<u8>) {
    (key.to_vec(), value.to_vec())
}

#[test]
fn decimal_rendering_is_exact() {
    assert_eq!(u64_to_decimal_bytes(0), b"0".to_vec());
    assert_eq!(u64_to_decimal_bytes(7), b"7".to_vec());
    assert_eq!(u64_to_decimal_bytes(12_345), b"12345".to_vec());
    assert_eq!(u64_to_decimal_bytes(u64::MAX), b"18446744073709551615".to_vec());
}

#[test]
fn scanner_categorizes_candidate_strings() {
    // seven candidate strings, separated by unprintable bytes; the last
    // name-qualifying and URI-qualifying strings win their slots
    let mut data: Vec<u8> = Vec::new();
    for s in [
        &b"TOKEN"[..],
        &b"US,CA"[..],
        &b"09:30"[..],
        &b"+0530"[..],
        &b"{a b}"[..],
        &b"My Token Name"[..],
        &b"https://ex.am/x"[..],
    ] {
        data.push(0);
        data.extend_from_slice(s);
    }
    data.push(0);

    let meta = Token2022MetadataParser::parse_metadata_from_mint(&data).unwrap();
    assert_eq!(meta.symbol, b"TOKEN".to_vec());
    assert_eq!(meta.name, b"My Token Name".to_vec());
    assert_eq!(meta.uri, b"https://ex.am/x".to_vec());

    let size = u64_to_decimal_bytes(data.len() as u64);
    let expected = vec![
        entry(b"symbol_source", b"extracted_from_account"),
        entry(b"name_source", b"extracted_from_account"),
        entry(b"name_source", b"extracted_from_account"),
        entry(b"name_source", b"extracted_from_account"),
        entry(b"name_source", b"extracted_from_account"),
        entry(b"name_source", b"extracted_from_account"),
        entry(b"uri_source", b"extracted_from_account"),
        entry(b"parsing_method", b"pattern_matching"),
        entry(b"account_size", &size),
        entry(b"strings_found", b"7"),
        entry(b"possible_allowed_countries", b"US,CA"),
        entry(b"possible_trading_hours", b"09:30"),
        entry(b"possible_timezone_offset", b"+0530"),
        entry(b"possible_json_metadata", b"{a b}"),
    ];
    assert_eq!(meta.additional_metadata, expected);
}

#[test]
fn scanner_drops_short_and_space_only_runs() {
    // "ab" is too short; "   " trims to nothing; " xy " trims to two bytes
    let data = b"\x00ab\x00   \x00 xy \x00LONG ENOUGH\x00";
    let meta = Token2022MetadataParser::parse_metadata_from_mint(data).unwrap();
    // "LONG ENOUGH" carries a space, so it is not symbol-like; at 11 bytes
    // it claims the name slot instead
    assert_eq!(meta.name, b"LONG ENOUGH".to_vec());
    assert_eq!(meta.symbol, b"UNK".to_vec());
    let strings_found: Vec<(Vec<u8>, Vec<u8>)> = meta
        .additional_metadata
        .iter()
        .filter(|(k, _)| k.as_slice() == b"strings_found".as_slice())
        .cloned()
        .collect();
    assert_eq!(strings_found, vec![entry(b"strings_found", b"1")]);
}

#[test]
fn empty_data_still_reports_bookkeeping() {
    let meta = Token2022MetadataParser::parse_metadata_from_mint(&[]).unwrap();
    assert_eq!(meta.name, b"Unknown Token".to_vec());
    assert_eq!(meta.symbol, b"UNK".to_vec());
    assert_eq!(meta.uri, b"".to_vec());
    assert_eq!(
        meta.additional_metadata,
        vec![
            entry(b"parsing_method", b"pattern_matching"),
            entry(b"account_size", b"0"),
            entry(b"strings_found", b"0"),
        ]
    );
}

#[test]
fn field_lookup_returns_the_first_match() {
    let meta = TokenMetadata {
        name: b"N".to_vec(),
        symbol: b"S".to_vec(),
        uri: Vec::new(),
        additional_metadata: vec![
            entry(b"allowed_countries", b"US,CA"),
            entry(b"allowed_countries", b"GB"),
            entry(b"trading_hours", b"09:00-17:00"),
        ],
    };
    let got = Token2022MetadataParser::get_metadata_field(&meta, b"allowed_countries");
    assert_eq!(got, Some(b"US,CA".to_vec()));
    assert_eq!(Token2022MetadataParser::get_metadata_field(&meta, b"missing"), None);
}

#[test]
fn rwa_fields_read_their_well_known_keys() {
    let meta = TokenMetadata {
        name: Vec::new(),
        symbol: Vec::new(),
        uri: Vec::new(),
        additional_metadata: vec![
            entry(b"allowed_countries", b"US,CA,GB"),
            entry(b"restricted_states", b"US_NY,US_TX"),
            entry(b"trading_hours", b"09:00-17:00"),
            entry(b"timezone_offset", b"-0500"),
            entry(b"metadata_type", b"rwa"),
            entry(b"compliance_status", b"active"),
        ],
    };
    let rwa = Token2022MetadataParser::extract_rwa_metadata(&meta);
    assert_eq!(rwa.allowed_countries, Some(b"US,CA,GB".to_vec()));
    assert_eq!(rwa.restricted_states, Some(b"US_NY,US_TX".to_vec()));
    assert_eq!(rwa.parse_trading_hours(), Some(b"09:00-17:00".to_vec()));
    assert_eq!(rwa.timezone_offset, Some(b"-0500".to_vec()));
    assert_eq!(rwa.metadata_type, Some(b"rwa".to_vec()));
    assert_eq!(rwa.compliance_status, Some(b"active".to_vec()));
    assert!(rwa.is_country_allowed(b"US"));
    assert!(rwa.is_country_allowed(b"GB"));
    assert!(!rwa.is_country_allowed(b"FR"));
    assert!(rwa.is_state_restricted(b"US_NY"));
    assert!(!rwa.is_state_restricted(b"US_CA"));
}

#[test]
fn rwa_fields_default_to_absent() {
    let rwa = RwaMetadata {
        allowed_countries: None,
        restricted_states: None,
        trading_hours: None,
        timezone_offset: None,
        metadata_type: None,
        compliance_status: None,
    };
    assert!(!rwa.is_country_allowed(b"US"));
    assert!(!rwa.is_state_restricted(b"US_NY"));
    assert_eq!(rwa.parse_trading_hours(), None);
}

#[test]
fn tlv_reader_walks_entries_exactly() {
    let mut data: Vec<u8> = Vec::new();
    data.extend_from_slice(&7u32.to_le_bytes());
    data.extend_from_slice(&3u32.to_le_bytes());
    data.extend_from_slice(b"abc");
    data.extend_from_slice(&9u32.to_le_bytes());
    data.extend_from_slice(&0u32.to_le_bytes());
    let mut reader = TlvIterator::new(&data, 0);
    assert_eq!(reader.next(), Some((7, b"abc".to_vec())));
    assert_eq!(reader.next(), Some((9, Vec::new())));
    assert_eq!(reader.next(), None);
}

#[test]
fn tlv_reader_stops_on_truncated_entries() {
    // a header whose declared length runs past the end of the data
    let mut data: Vec<u8> = Vec::new();
    data.extend_from_slice(&7u32.to_le_bytes());
    data.extend_from_slice(&10u32.to_le_bytes());
    data.extend_from_slice(b"abc");
    let mut reader = TlvIterator::new(&data, 0);
    assert_eq!(reader.next(), None);
    // fewer than eight bytes leave no room for a header
    let mut reader = TlvIterator::new(&[1, 2, 3], 0);
    assert_eq!(reader.next(), None);
    // an offset past the end reads nothing
    let mut reader = TlvIterator::new(&data, 100);
    assert_eq!(reader.next(), None);
}

#[test]
fn simplified_parse_keeps_the_latest_claim_per_slot() {
    let data = b"\x00short\x00https://meta.example/x\x00BIGTOKEN\x00a name string\x00ab\x00";
    let meta = Token2022MetadataParser::parse_metadata_simple(data).unwrap();
    // "a name string" overwrote "short" in place
    assert_eq!(meta.name, b"a name string".to_vec());
    assert_eq!(meta.symbol, b"BIGTOKEN".to_vec());
    assert_eq!(meta.uri, b"https://meta.example/x".to_vec());
    let size = u64_to_decimal_bytes(data.len() as u64);
    let expected = vec![
        entry(b"name", b"a name string"),
        entry(b"uri", b"https://meta.example/x"),
        entry(b"symbol", b"BIGTOKEN"),
        entry(b"extraction_method", b"heuristic_pattern_matching"),
        entry(b"account_size", &size),
    ];
    assert_eq!(meta.additional_metadata, expected);
}

#[test]
fn simplified_parse_discards_an_unterminated_run() {
    let meta = Token2022MetadataParser::parse_metadata_simple(b"\x00TOKENX").unwrap();
    assert_eq!(meta.symbol, b"UNK".to_vec());
    assert_eq!(meta.name, b"Unknown Token".to_vec());
    assert_eq!(
        meta.additional_metadata,
        vec![
            entry(b"extraction_method", b"heuristic_pattern_matching"),
            entry(b"account_size", b"7"),
        ]
    );
}
