use warpwallet::HexError;
use warpwallet::Seed;

const ORDER_HEX: &str = "fffffffffffffffffffffffffffffffebaaedce6af48a03bbfd25e8cd0364141";

#[test]
fn new_seed_is_zero() {
    let seed = Seed::new();
    assert_eq!(seed.to_hex(), "0".repeat(64));
    assert_eq!(seed.to_bytes(), vec![0u8; 32]);
}

#[test]
fn hex_round_trip() {
    let seed = Seed::from_hex(ORDER_HEX).unwrap();
    assert_eq!(seed.to_hex(), ORDER_HEX);
}

#[test]
fn hex_upper_case_accepted_rendered_lower() {
    let seed = Seed::from_hex(&ORDER_HEX.to_uppercase()).unwrap();
    assert_eq!(seed.to_hex(), ORDER_HEX);
}

#[test]
fn hex_zero_pads_small_bytes() {
    // a byte below 0x10 must render as two digits, never one
    let hex = "0a".repeat(32);
    let seed = Seed::from_hex(&hex).unwrap();
    assert_eq!(seed.to_bytes(), vec![0x0a_u8; 32]);
    assert_eq!(seed.to_hex(), hex);
}

#[test]
fn hex_errors() {
    assert_eq!(Seed::from_hex("zz").unwrap_err(), HexError::InvalidChar);
    assert_eq!(
        Seed::from_hex(&("0g".to_owned() + &"00".repeat(31))).unwrap_err(),
        HexError::InvalidChar
    );
    assert_eq!(Seed::from_hex("").unwrap_err(), HexError::InvalidLength);
    assert_eq!(Seed::from_hex(&"00".repeat(31)).unwrap_err(), HexError::InvalidLength);
    assert_eq!(Seed::from_hex(&("0".to_owned() + &"00".repeat(32))).unwrap_err(),
        HexError::InvalidLength);
    // a non-hex character wins over a bad length
    assert_eq!(Seed::from_hex("q").unwrap_err(), HexError::InvalidChar);
}

#[test]
fn combine_is_xor() {
    let a = Seed::from_hex(&"f0".repeat(32)).unwrap();
    let b = Seed::from_hex(&"3c".repeat(32)).unwrap();
    let c = a.combine(&b);
    assert_eq!(c.to_hex(), "cc".repeat(32));
}

#[test]
fn combine_commutes() {
    let a = Seed::from_hex(ORDER_HEX).unwrap();
    let b = Seed::from_hex(&"5a".repeat(32)).unwrap();
    assert_eq!(a.combine(&b).to_bytes(), b.combine(&a).to_bytes());
}

#[test]
fn combine_self_inverse() {
    let a = Seed::from_hex(ORDER_HEX).unwrap();
    let b = Seed::from_hex(&"5a".repeat(32)).unwrap();
    let c = a.combine(&b);
    assert_eq!(c.combine(&b).to_bytes(), a.to_bytes());
    assert_eq!(c.combine(&a).to_bytes(), b.to_bytes());
}
