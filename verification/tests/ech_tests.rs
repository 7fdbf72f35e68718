use base64::engine::general_purpose::STANDARD;
use base64::Engine;
use secure_dns_resolver::ech::parse_ech_config_contents;
use secure_dns_resolver::ech::parse_ech_config_list;
use secure_dns_resolver::ech::extract_ech_from_svcb;
use secure_dns_resolver::parse_ech_config;
use secure_dns_resolver::EchConfigEntry;

/// Contents of an ECHConfig for the 0xfe0d draft: config id 7, KEM 0x0020,
/// a 4-byte public key, one cipher suite, and the public name `example.com`.
fn sample_contents() -> Vec<u8> {
    let mut c = vec![
        0x07, // config_id
        0x00, 0x20, // kem_id
        0x00, 0x04, // public key length
        0xAA, 0xAA, 0xAA, 0xAA, // public key
        0x00, 0x02, // cipher suites length
        0x00, 0x01, // cipher suite
        0x40, // maximum name length
    ];
    let name = b"example.com";
    c.push(name.len() as u8);
    c.extend_from_slice(name);
    c
}

/// One well-formed ECHConfig: version 0xfe0d, length, contents.
fn sample_config() -> Vec<u8> {
    let contents = sample_contents();
    let mut config = vec![0xfe, 0x0d, 0x00, contents.len() as u8];
    config.extend_from_slice(&contents);
    config
}

/// A well-formed ECHConfigList holding the sample config.
fn sample_list() -> Vec<u8> {
    let config = sample_config();
    let mut list = vec![0x00, config.len() as u8];
    list.extend_from_slice(&config);
    list
}

/// A whole SVCB RDATA: priority 00 01, root target name 00, one SvcParam of
/// key 5 whose value is the sample ECHConfigList.
fn sample_rdata() -> Vec<u8> {
    let list = sample_list();
    let mut rdata = vec![0x00, 0x01, 0x00, 0x00, 0x05, 0x00, list.len() as u8];
    rdata.extend_from_slice(&list);
    rdata
}

#[test]
fn buffer_shorter_than_three_bytes_is_none() {
    assert!(parse_ech_config(&[]).is_none());
    assert!(parse_ech_config(&[0x00]).is_none());
    assert!(parse_ech_config(&[0x00, 0x01]).is_none());
}

#[test]
fn record_without_ech_param_is_none() {
    // Priority, root name, one SvcParam of key 1 (alpn) with a 2-byte value.
    let rdata = [0x00, 0x01, 0x00, 0x00, 0x01, 0x00, 0x02, 0x68, 0x32];
    assert!(parse_ech_config(&rdata).is_none());
}

#[test]
fn record_with_empty_param_area_is_none() {
    // Priority and root name only: no SvcParams at all.
    let rdata = [0x00, 0x01, 0x00];
    assert!(parse_ech_config(&rdata).is_none());
}

#[test]
fn well_formed_list_yields_one_parsed_entry() {
    let list = sample_list();
    let entries = parse_ech_config_list(&list).expect("list should parse");
    assert_eq!(entries.len(), 1);
    match &entries[0] {
        EchConfigEntry::Parsed { version, config_id, kem_id, public_name, base64 } => {
            assert_eq!(*version, 0xfe0d);
            assert_eq!(*config_id, 7);
            assert_eq!(*kem_id, 0x0020);
            assert_eq!(public_name, "example.com");
            // The base64 text decodes back to the exact original config bytes.
            let decoded = STANDARD.decode(base64).expect("valid base64");
            assert_eq!(decoded, sample_config());
        }
        other => panic!("expected a parsed entry, got {:?}", other),
    }
}

#[test]
fn truncated_list_yields_single_raw_fallback() {
    // Declared list length 0x00ff, but only one byte follows.
    let value = [0x00, 0xff, 0x01];
    let entries = parse_ech_config_list(&value).expect("fallback entry expected");
    assert_eq!(entries.len(), 1);
    match &entries[0] {
        EchConfigEntry::Raw { base64 } => {
            // The base64 text decodes back to the entire input value.
            let decoded = STANDARD.decode(base64).expect("valid base64");
            assert_eq!(decoded, value.to_vec());
        }
        other => panic!("expected a raw fallback entry, got {:?}", other),
    }
}

#[test]
fn list_with_no_decodable_config_yields_raw_fallback() {
    // Declared length 3, three bytes follow, but fewer than 4 bytes remain
    // for a config header: zero configs decode and the whole value falls
    // back to one raw entry.
    let value = [0x00, 0x03, 0x01, 0x02, 0x03];
    let entries = parse_ech_config_list(&value).expect("fallback entry expected");
    assert_eq!(entries.len(), 1);
    match &entries[0] {
        EchConfigEntry::Raw { base64 } => {
            let decoded = STANDARD.decode(base64).expect("valid base64");
            assert_eq!(decoded, value.to_vec());
        }
        other => panic!("expected a raw fallback entry, got {:?}", other),
    }
}

#[test]
fn zero_length_list_contributes_no_entries() {
    // Declared list length 0: nothing decodes and no fallback is owed.
    let entries = parse_ech_config_list(&[0x00, 0x00]).expect("a zero-length list still parses");
    assert!(entries.is_empty());
    // Extra bytes after a declared length of 0 change nothing.
    let entries = parse_ech_config_list(&[0x00, 0x00, 0xAB]).expect("list should parse");
    assert!(entries.is_empty());
    // A record whose only ECH param carries a zero-length list yields none.
    let rdata = [0x00, 0x01, 0x00, 0x00, 0x05, 0x00, 0x02, 0x00, 0x00];
    assert!(parse_ech_config(&rdata).is_none());
}

#[test]
fn value_too_short_for_length_field_is_none() {
    assert!(parse_ech_config_list(&[]).is_none());
    assert!(parse_ech_config_list(&[0x00]).is_none());
}

#[test]
fn unknown_version_yields_unparsed_entry() {
    // One config with version 0x0001 and two content bytes.
    let list = [0x00, 0x06, 0x00, 0x01, 0x00, 0x02, 0xAB, 0xCD];
    let entries = parse_ech_config_list(&list).expect("list should parse");
    assert_eq!(entries.len(), 1);
    match &entries[0] {
        EchConfigEntry::Unparsed { version, base64 } => {
            assert_eq!(*version, 0x0001);
            let decoded = STANDARD.decode(base64).expect("valid base64");
            assert_eq!(decoded, vec![0x00, 0x01, 0x00, 0x02, 0xAB, 0xCD]);
        }
        other => panic!("expected an unparsed entry, got {:?}", other),
    }
}

#[test]
fn whole_record_reports_version_and_public_name() {
    let rdata = sample_rdata();
    let entries = parse_ech_config(&rdata).expect("record should yield entries");
    assert_eq!(entries.len(), 1);
    match &entries[0] {
        EchConfigEntry::Parsed { version, public_name, .. } => {
            assert_eq!(*version, 0xfe0d);
            assert_eq!(public_name, "example.com");
        }
        other => panic!("expected a parsed entry, got {:?}", other),
    }
}

#[test]
fn extract_walks_a_labelled_target_name() {
    // Priority, then a target name of two labels ("ab", "c") and the root
    // terminator, then the ECH SvcParam.
    let list = sample_list();
    let mut rdata = vec![0x00, 0x01, 0x02, 0x61, 0x62, 0x01, 0x63, 0x00, 0x00, 0x05];
    rdata.push(0x00);
    rdata.push(list.len() as u8);
    rdata.extend_from_slice(&list);
    let entries = extract_ech_from_svcb(&rdata).expect("record should yield entries");
    assert_eq!(entries.len(), 1);
    assert!(matches!(&entries[0], EchConfigEntry::Parsed { .. }));
}

#[test]
fn contents_parsing_reads_structured_fields() {
    let contents = sample_contents();
    let info = parse_ech_config_contents(0xfe0d, &contents).expect("contents should parse");
    assert_eq!(info.config_id, 7);
    assert_eq!(info.kem_id, 0x0020);
    assert_eq!(info.public_name, "example.com");
}

#[test]
fn contents_parsing_rejects_unknown_version_and_overruns() {
    let contents = sample_contents();
    assert!(parse_ech_config_contents(0x0100, &contents).is_none());
    // Truncating the buffer makes the declared public-key length overrun.
    assert!(parse_ech_config_contents(0xfe0d, &contents[..6]).is_none());
    // Fewer than 10 bytes can never hold the fixed fields.
    assert!(parse_ech_config_contents(0xfe0d, &contents[..9]).is_none());
}

#[test]
fn public_name_is_decoded_lossily() {
    // Contents whose public name holds an invalid UTF-8 byte.
    let c = vec![
        0x01, // config_id
        0x00, 0x20, // kem_id
        0x00, 0x00, // public key length (empty)
        0x00, 0x00, // cipher suites length (empty)
        0x40, // maximum name length
        0x02, // public name length
        0x61, 0xFF, // "a" then an invalid byte
    ];
    let info = parse_ech_config_contents(0xfe0e, &c).expect("contents should parse");
    assert_eq!(info.config_id, 1);
    assert_eq!(info.public_name, format!("a{}", char::REPLACEMENT_CHARACTER));
}

#[test]
fn ech_param_with_tiny_value_contributes_nothing() {
    // A key-5 SvcParam whose value is a single byte: too short even for the
    // list length field, so the record yields no entries at all.
    let rdata = [0x00, 0x01, 0x00, 0x00, 0x05, 0x00, 0x01, 0x42];
    assert!(parse_ech_config(&rdata).is_none());
}
