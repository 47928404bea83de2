use warpwallet::validate;
use warpwallet::ValidationError;

#[test]
fn parse_arguments_success() {
    let input = validate("foo".as_bytes(), "foo@bar.com".as_bytes())
        .unwrap_or_else(|_| panic!("argument parsing failed"));
    assert_eq!(input.passphrase, "foo".as_bytes().to_vec());
    assert_eq!(input.salt, "foo@bar.com".as_bytes().to_vec());
}

#[test]
fn empty_salt() {
    match validate("foo".as_bytes(), "".as_bytes()) {
        Err(ValidationError::EmptySalt) => {}
        Err(other) => panic!("expected EmptySalt but got: {:?}", other),
        Ok(_) => panic!("expected EmptySalt but got success"),
    }
}

#[test]
fn empty_passphrase() {
    match validate("foo".as_bytes(), "hello".as_bytes()) {
        Err(ValidationError::BadSalt) => {}
        Err(other) => panic!("expected BadSalt but got: {:?}", other),
        Ok(_) => panic!("expected BadSalt but got success"),
    }
}

#[test]
fn bad_salt() {
    match validate("\t".as_bytes(), "hello@foo.com".as_bytes()) {
        Err(ValidationError::BadPassphrase) => {}
        Err(other) => panic!("expected BadPassphrase but got: {:?}", other),
        Ok(_) => panic!("expected BadPassphrase but got success"),
    }
}

#[test]
fn empty_passphrase_rejected_first() {
    match validate("".as_bytes(), "".as_bytes()) {
        Err(ValidationError::EmptyPassphrase) => {}
        Err(other) => panic!("expected EmptyPassphrase but got: {:?}", other),
        Ok(_) => panic!("expected EmptyPassphrase but got success"),
    }
}

#[test]
fn salt_shapes() {
    // smallest accepted shape
    assert!(validate("x".as_bytes(), "a@b.c".as_bytes()).is_ok());
    // the dot may come anywhere after the first `@`, even in the local part
    // of a later segment
    assert!(validate("x".as_bytes(), "a@@b.c".as_bytes()).is_ok());
    // missing pieces
    for salt in ["@b.c", "a@.c", "a@b.", "a@bc", "ab.c", "a.b@c", "@.", "a@b"] {
        match validate("x".as_bytes(), salt.as_bytes()) {
            Err(ValidationError::BadSalt) => {}
            Err(other) => panic!("salt {:?}: expected BadSalt but got: {:?}", salt, other),
            Ok(_) => panic!("salt {:?}: expected BadSalt but got success", salt),
        }
    }
}

#[test]
fn passphrase_printable_bounds() {
    // the full printable range, 0x20 through 0x7e, is accepted
    assert!(validate(&[0x20], "a@b.c".as_bytes()).is_ok());
    assert!(validate(&[0x7e], "a@b.c".as_bytes()).is_ok());
    // one byte outside the range anywhere is rejected
    for p in [&[0x1f_u8][..], &[0x7f][..], &[0x66, 0x0a, 0x66][..], &[0xc3, 0xa9][..]] {
        match validate(p, "a@b.c".as_bytes()) {
            Err(ValidationError::BadPassphrase) => {}
            Err(other) => panic!("expected BadPassphrase but got: {:?}", other),
            Ok(_) => panic!("expected BadPassphrase but got success"),
        }
    }
}
