use oneil::cache::{HexError, ImportEntry, ImportHash};
use std::collections::BTreeSet;

#[test]
fn partial_eq_u64_both_ways() {
    let h = ImportHash(7);
    assert_eq!(h, 7_u64);
    assert_eq!(7_u64, h);
    assert_ne!(h, 8_u64);
}

#[test]
fn serde_roundtrip_hex_string() {
    let h = ImportHash(0xdead_beef_cafe_babe);
    let text = h.to_hex();
    assert_eq!(text, "deadbeefcafebabe");
    assert_eq!(ImportHash::from_hex(&text), Ok(h));
}

#[test]
fn deserializes_zero_padded_and_unpadded_hex() {
    assert_eq!(ImportHash::from_hex("0000000000000001"), Ok(ImportHash(1)));
    assert_eq!(ImportHash::from_hex("42"), Ok(ImportHash(0x42)));
}

#[test]
fn import_entry_json_contains_hex_hash() {
    let entry = ImportEntry::new("m".to_string(), BTreeSet::new(), ImportHash(0x01));
    assert_eq!(entry.hash.to_hex(), "0000000000000001");
    assert!(entry.functions_used.is_empty());
}

#[test]
fn hex_of_zero_and_max() {
    assert_eq!(ImportHash(0).to_hex(), "0000000000000000");
    assert_eq!(ImportHash(u64::MAX).to_hex(), "ffffffffffffffff");
}

#[test]
fn hex_errors() {
    assert_eq!(ImportHash::from_hex(""), Err(HexError::Empty));
    assert_eq!(ImportHash::from_hex("+"), Err(HexError::InvalidDigit));
    assert_eq!(ImportHash::from_hex("0x1"), Err(HexError::InvalidDigit));
    assert_eq!(ImportHash::from_hex("-1"), Err(HexError::InvalidDigit));
    assert_eq!(ImportHash::from_hex("10000000000000000"), Err(HexError::PosOverflow));
    assert_eq!(ImportHash::from_hex("+ff"), Ok(ImportHash(0xff)));
    assert_eq!(ImportHash::from_hex("DeadBeef"), Ok(ImportHash(0xdead_beef)));
}

#[test]
fn hex_roundtrip_values() {
    for v in [0u64, 1, 15, 16, 255, 0x1234_5678_9abc_def0, u64::MAX] {
        let h = ImportHash(v);
        assert_eq!(ImportHash::from_hex(&h.to_hex()), Ok(h));
    }
}

#[test]
fn from_conversions() {
    let h: ImportHash = 5u64.into();
    assert_eq!(h, ImportHash(5));
    let v: u64 = h.into();
    assert_eq!(v, 5);
}
