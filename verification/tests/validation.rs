//! Input validation: status filter names and hex-encoded identifiers.

use revaultd::api::{parse_status_filter, parse_txids_filter, RpcError};
use revaultd::status::VaultStatus;
use revaultd::txid::{HexError, Txid};

#[test]
fn status_known_names_parse() {
    let cases = [
        ("unconfirmed", VaultStatus::Unconfirmed),
        ("funded", VaultStatus::Funded),
        ("unvaulting", VaultStatus::Unvaulting),
        ("unvaulted", VaultStatus::Unvaulted),
        ("spendable", VaultStatus::Spendable),
        ("spending", VaultStatus::Spending),
        ("spent", VaultStatus::Spent),
        ("canceling", VaultStatus::Canceling),
        ("canceled", VaultStatus::Canceled),
        ("emergencyvaulting", VaultStatus::EmergencyVaulting),
        ("emergencyvaulted", VaultStatus::EmergencyVaulted),
    ];
    for (name, expected) in cases {
        assert_eq!(VaultStatus::from_str(name), Some(expected));
        assert_eq!(expected.name(), name);
    }
}

#[test]
fn status_unknown_names_rejected() {
    assert_eq!(VaultStatus::from_str("bogus"), None);
    assert_eq!(VaultStatus::from_str(""), None);
    // Matching is case-sensitive.
    assert_eq!(VaultStatus::from_str("Funded"), None);
    assert_eq!(VaultStatus::from_str("FUNDED"), None);
    assert_eq!(VaultStatus::from_str("funded "), None);
}

#[test]
fn status_filter_absent_is_no_filter() {
    assert!(matches!(parse_status_filter(None), Ok(None)));
}

#[test]
fn status_filter_error_names_the_value() {
    let r = parse_status_filter(Some("bogus".to_string()));
    let e = match r {
        Err(e) => e,
        Ok(_) => panic!("expected an invalid-status error"),
    };
    match &e {
        RpcError::InvalidStatus { value } => assert_eq!(value, "bogus"),
        _ => panic!("expected the invalid-status variant"),
    }
    assert_eq!(e.message(), "'bogus' is not a valid vault status");
}

#[test]
fn txid_decodes_64_hex_digits() {
    let hex = "000102030405060708090a0b0c0d0e0f101112131415161718191a1b1c1d1e1f";
    let t = Txid::from_hex(hex).unwrap();
    let expected: Vec<u8> = (0u8..32).collect();
    assert_eq!(t.as_bytes(), expected.as_slice());
}

#[test]
fn txid_decodes_mixed_case() {
    let hex = "FFee00112233445566778899aAbBcCdDeEfF00112233445566778899AABBCCdd";
    let t = Txid::from_hex(hex).unwrap();
    assert_eq!(t.as_bytes()[0], 0xff);
    assert_eq!(t.as_bytes()[1], 0xee);
    assert_eq!(t.as_bytes()[31], 0xdd);
}

#[test]
fn txid_rejects_wrong_length() {
    assert_eq!(Txid::from_hex("zz").unwrap_err(), HexError::BadLength { got: 2 });
    assert_eq!(Txid::from_hex("").unwrap_err(), HexError::BadLength { got: 0 });
    let short = "00112233445566778899aabbccddeeff";
    assert_eq!(Txid::from_hex(short).unwrap_err(), HexError::BadLength { got: 32 });
}

#[test]
fn txid_rejects_first_bad_character() {
    let mut s: String = "0".repeat(64);
    s.replace_range(10..11, "g");
    s.replace_range(20..21, "!");
    // Position 10 comes first, so 'g' is the character named.
    assert_eq!(Txid::from_hex(&s).unwrap_err(), HexError::BadCharacter { found: 'g' });
}

#[test]
fn txids_filter_absent_is_no_filter() {
    assert!(matches!(parse_txids_filter(None), Ok(None)));
}

#[test]
fn txids_filter_decodes_every_identifier() {
    let a = "00".repeat(32);
    let b = "ff".repeat(32);
    let r = parse_txids_filter(Some(vec![a, b])).unwrap().unwrap();
    assert_eq!(r.len(), 2);
    assert_eq!(r[0].as_bytes(), [0u8; 32].as_slice());
    assert_eq!(r[1].as_bytes(), [0xffu8; 32].as_slice());
}

#[test]
fn txids_filter_is_all_or_nothing() {
    let good = "11".repeat(32);
    let r = parse_txids_filter(Some(vec![good, "zz".to_string()]));
    let e = match r {
        Err(e) => e,
        Ok(_) => panic!("expected an invalid-txid error"),
    };
    match &e {
        RpcError::InvalidTxid { value, reason } => {
            assert_eq!(value, "zz");
            assert_eq!(*reason, HexError::BadLength { got: 2 });
        }
        _ => panic!("expected the invalid-txid variant"),
    }
    assert_eq!(e.message(), "'zz' is not a valid txid (invalid hex string length)");
}

#[test]
fn txids_filter_names_the_first_offender() {
    let bad1 = "XY".to_string();
    let bad2 = "zz".to_string();
    match parse_txids_filter(Some(vec![bad1, bad2])) {
        Err(RpcError::InvalidTxid { value, .. }) => assert_eq!(value, "XY"),
        _ => panic!("expected an invalid-txid error"),
    }
}
