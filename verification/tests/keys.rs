use warpwallet::Seed;
use warpwallet::encode::encode;
use warpwallet::key::{derive_key, KeyError};

const ORDER_HEX: &str = "fffffffffffffffffffffffffffffffebaaedce6af48a03bbfd25e8cd0364141";

#[test]
fn zero_scalar_rejected() {
    let seed = Seed::from_hex(&"00".repeat(32)).unwrap();
    match derive_key(&seed) {
        Err(KeyError::InvalidScalar) => {}
        Ok(_) => panic!("expected InvalidScalar but got a key"),
    }
}

#[test]
fn order_scalar_rejected() {
    let seed = Seed::from_hex(ORDER_HEX).unwrap();
    match derive_key(&seed) {
        Err(KeyError::InvalidScalar) => {}
        Ok(_) => panic!("expected InvalidScalar but got a key"),
    }
}

#[test]
fn above_order_scalar_rejected() {
    let seed = Seed::from_hex(&"ff".repeat(32)).unwrap();
    match derive_key(&seed) {
        Err(KeyError::InvalidScalar) => {}
        Ok(_) => panic!("expected InvalidScalar but got a key"),
    }
}

#[test]
fn order_minus_one_accepted() {
    let hex = "fffffffffffffffffffffffffffffffebaaedce6af48a03bbfd25e8cd0364140";
    let seed = Seed::from_hex(hex).unwrap();
    let kp = derive_key(&seed).unwrap_or_else(|_| panic!("largest valid scalar rejected"));
    assert_eq!(kp.secret.to_bytes(), seed.to_bytes());
    assert_eq!(kp.public_point.len(), 65);
    assert_eq!(kp.public_point[0], 0x04);
}

#[test]
fn scalar_one_known_encodings() {
    // the key pair for scalar 1 and its textual forms are fixed by the
    // encoding scheme and publicly known
    let hex = "0000000000000000000000000000000000000000000000000000000000000001";
    let seed = Seed::from_hex(hex).unwrap();
    let kp = derive_key(&seed).unwrap_or_else(|_| panic!("scalar 1 rejected"));
    let (wif, address) = encode(&kp);
    assert_eq!(wif, "5HpHagT65TZzG1PH3CSu63k8DbpvD8s5ip4nEB3kEsreAnchuDf");
    assert_eq!(address, "1EHNa6Q4Jz2uvNExL497mE43ikXhwF6kZm");
}
