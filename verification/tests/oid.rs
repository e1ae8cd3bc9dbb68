use bushi::database::oid::is_valid_hex;
use bushi::database::SqlOid;
use bushi::error::SyncError;

#[test]
fn oid_round_trips_through_text() {
    let text = "b42cd71ca109b3f5ccf9e401711005feac383ed4";
    let oid = SqlOid::from_str(text).unwrap();
    assert_eq!(oid.0[0], 0xb4);
    assert_eq!(oid.0[19], 0xd4);
    assert_eq!(oid.to_string(), text);
    assert!(!oid.is_zero());
}

#[test]
fn oid_refuses_malformed_text() {
    assert_eq!(SqlOid::from_str("not-hex"), Err(SyncError::BadHash));
    assert_eq!(SqlOid::from_str(""), Err(SyncError::BadHash));
    assert_eq!(
        SqlOid::from_str("B42CD71CA109B3F5CCF9E401711005FEAC383ED4"),
        Err(SyncError::BadHash)
    );
    assert_eq!(
        SqlOid::from_str("b42cd71ca109b3f5ccf9e401711005feac383ed"),
        Err(SyncError::BadHash)
    );
    assert_eq!(
        SqlOid::from_str("b42cd71ca109b3f5ccf9e401711005feac383ed4a"),
        Err(SyncError::BadHash)
    );
}

#[test]
fn oid_zero_is_the_sentinel() {
    let zero = SqlOid::zero();
    assert!(zero.is_zero());
    assert_eq!(zero.to_string(), "0000000000000000000000000000000000000000");
    assert_eq!(SqlOid::from_bytes([0u8; 20]), zero);
}

#[test]
fn hash_text_is_forty_lowercase_hex_digits() {
    assert!(is_valid_hex("0123456789abcdef0123456789abcdef01234567"));
    assert!(!is_valid_hex("0123456789abcdef0123456789abcdef0123456g"));
    assert!(!is_valid_hex("0123456789ABCDEF0123456789abcdef01234567"));
    assert!(!is_valid_hex("0123456789abcdef0123456789abcdef0123456"));
    assert!(!is_valid_hex("0123456789abcdef0123456789abcdef0123456\u{e9}"));
    assert!(!is_valid_hex(""));
}

#[test]
fn every_byte_is_written_as_two_digits() {
    let mut bytes = [0u8; 20];
    for (i, b) in bytes.iter_mut().enumerate() {
        *b = (i * 13 + 7) as u8;
    }
    bytes[0] = 0x0f;
    bytes[1] = 0xf0;
    let oid = SqlOid::from_bytes(bytes);
    let text = oid.to_string();
    assert_eq!(&text[..4], "0ff0");
    assert_eq!(text.len(), 40);
    assert_eq!(SqlOid::from_str(&text), Ok(oid));
}
