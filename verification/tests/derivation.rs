use warpwallet::DeriveError;
use warpwallet::ValidationError;
use warpwallet::pbkdf2;
use warpwallet::scrypt;


#[test]
fn pbkdf2_deterministic() {
    let a = pbkdf2("foo".as_bytes(), "foo@bar.com".as_bytes());
    let b = pbkdf2("foo".as_bytes(), "foo@bar.com".as_bytes());
    assert_eq!(a.to_bytes(), b.to_bytes());
    assert_eq!(a.to_bytes().len(), 32);
    assert_ne!(a.to_bytes(), vec![0u8; 32]);
}

#[test]
fn pbkdf2_depends_on_both_inputs() {
    let a = pbkdf2("foo".as_bytes(), "foo@bar.com".as_bytes());
    let b = pbkdf2("fop".as_bytes(), "foo@bar.com".as_bytes());
    let c = pbkdf2("foo".as_bytes(), "foo@bar.con".as_bytes());
    assert_ne!(a.to_bytes(), b.to_bytes());
    assert_ne!(a.to_bytes(), c.to_bytes());
}

#[test]
fn domain_separation() {
    // the two KDFs use distinct suffix bytes and distinct algorithms, so
    // their outputs differ on the same input
    let s1 = scrypt("foo".as_bytes(), "foo@bar.com".as_bytes());
    let s2 = pbkdf2("foo".as_bytes(), "foo@bar.com".as_bytes());
    assert_eq!(s1.to_bytes().len(), 32);
    assert_eq!(s2.to_bytes().len(), 32);
    assert_ne!(s1.to_bytes(), s2.to_bytes());
}

#[test]
fn derive_pipeline_consistent() {
    let a = warpwallet::wallet::derive("foo".as_bytes(), "foo@bar.com".as_bytes())
        .unwrap_or_else(|_| panic!("derivation failed"));
    // the second seed matches a fresh run of the cheap KDF
    let s2 = pbkdf2("foo".as_bytes(), "foo@bar.com".as_bytes());
    assert_eq!(a.s2.to_bytes(), s2.to_bytes());
    // the combined seed is the XOR of the two KDF seeds
    let xor: Vec<u8> = a
        .s1
        .to_bytes()
        .iter()
        .zip(a.s2.to_bytes().iter())
        .map(|(x, y)| x ^ y)
        .collect();
    assert_eq!(a.s3.to_bytes(), xor);
    // seed hex renderings round-trip
    let rt = warpwallet::Seed::from_hex(&a.s3.to_hex()).unwrap();
    assert_eq!(rt.to_bytes(), a.s3.to_bytes());
    // textual forms have the expected shapes
    assert!(a.private_key.starts_with('5'));
    assert!(a.address.starts_with('1'));
}

#[test]
fn seeds_from_input() {
    let input = warpwallet::Input::new("foo", "foo@bar.com");
    assert_eq!(input.passphrase, "foo".as_bytes().to_vec());
    assert_eq!(input.salt, "foo@bar.com".as_bytes().to_vec());
    let (s1, s2, s3) = warpwallet::seeds(input);
    // the second seed matches a direct run of the cheap KDF
    assert_eq!(s2.to_bytes(), pbkdf2("foo".as_bytes(), "foo@bar.com".as_bytes()).to_bytes());
    let xor: Vec<u8> = s1
        .to_bytes()
        .iter()
        .zip(s2.to_bytes().iter())
        .map(|(x, y)| x ^ y)
        .collect();
    assert_eq!(s3.to_bytes(), xor);
}

#[test]
fn derive_validates_first() {
    match warpwallet::wallet::derive("foo".as_bytes(), "hello".as_bytes()) {
        Err(DeriveError::Validation(ValidationError::BadSalt)) => {}
        Err(other) => panic!("expected BadSalt but got: {:?}", other),
        Ok(_) => panic!("expected BadSalt but got success"),
    }
    match warpwallet::wallet::derive("".as_bytes(), "a@b.c".as_bytes()) {
        Err(DeriveError::Validation(ValidationError::EmptyPassphrase)) => {}
        Err(other) => panic!("expected EmptyPassphrase but got: {:?}", other),
        Ok(_) => panic!("expected EmptyPassphrase but got success"),
    }
}
