//! The two leaf key-derivation functions and their combination into the
//! three seeds.
//!
//! Each KDF appends its own domain-separation byte to both the passphrase
//! and the salt before hashing, so the two output spaces stay disjoint even
//! under colliding raw inputs.

use vstd::prelude::*;
use crate::seed::Seed;
use crate::seed::xor_bytes;
use crate::validate::Input;

verus! {

/// The 32-byte key that the scrypt KDF (cost 2^18, block size 8,
/// parallelization 1) derives from a password and salt.
pub uninterp spec fn scrypt_of(passphrase: Seq<u8>, salt: Seq<u8>) -> Seq<u8>;

/// The 32-byte key that PBKDF2-HMAC-SHA256 with 65536 iterations derives
/// from a password and salt.
pub uninterp spec fn pbkdf2_of(passphrase: Seq<u8>, salt: Seq<u8>) -> Seq<u8>;

/// The first seed: scrypt over the passphrase and salt, each with the
/// domain-separation byte `0x01` appended.
pub open spec fn scrypt_seed_of(p: Seq<u8>, s: Seq<u8>) -> Seq<u8> {
    scrypt_of(p.push(0x01u8), s.push(0x01u8))
}

/// The second seed: PBKDF2 over the passphrase and salt, each with the
/// domain-separation byte `0x02` appended.
pub open spec fn pbkdf2_seed_of(p: Seq<u8>, s: Seq<u8>) -> Seq<u8> {
    pbkdf2_of(p.push(0x02u8), s.push(0x02u8))
}

/// Relies on scrypt::scrypt with parameters log_n = 18, r = 8, p = 1 and a
/// 32-byte output buffer: the derived key fills the buffer and depends on
/// the password and salt bytes alone.
#[verifier::external_body]
fn scrypt_raw(passphrase: &Vec<u8>, salt: &Vec<u8>) -> (r: Vec<u8>)
    ensures
        r@ == scrypt_of(passphrase@, salt@),
        r@.len() == 32,
{
    let params = scrypt::Params::new(18, 8, 1).unwrap();
    let mut out = [0u8; 32];
    scrypt::scrypt(passphrase.as_slice(), salt.as_slice(), &params, &mut out).unwrap();
    out.to_vec()
}

/// Relies on ring::pbkdf2::derive with HMAC-SHA256, 65536 iterations and a
/// 32-byte output buffer: the derived key fills the buffer and depends on
/// the password and salt bytes alone.
#[verifier::external_body]
fn pbkdf2_raw(passphrase: &Vec<u8>, salt: &Vec<u8>) -> (r: Vec<u8>)
    ensures
        r@ == pbkdf2_of(passphrase@, salt@),
        r@.len() == 32,
{
    let iterations = core::num::NonZeroU32::new(65536).unwrap();
    let mut out = [0u8; 32];
    ring::pbkdf2::derive(
        ring::pbkdf2::PBKDF2_HMAC_SHA256,
        iterations,
        salt.as_slice(),
        passphrase.as_slice(),
        &mut out,
    );
    out.to_vec()
}

/// The scrypt-derived seed, with the `0x01` domain-separation byte appended
/// to both inputs before hashing.
pub fn scrypt(passphrase: &[u8], salt: &[u8]) -> (r: Seed)
    ensures
        r.wf(),
        r@ == scrypt_seed_of(passphrase@, salt@),
{
    let mut p: Vec<u8> = Vec::new();
    p.extend_from_slice(passphrase);
    p.push(0x01);
    let mut s: Vec<u8> = Vec::new();
    s.extend_from_slice(salt);
    s.push(0x01);
    proof {
        assert(p@ =~= passphrase@.push(0x01u8));
        assert(s@ =~= salt@.push(0x01u8));
    }
    Seed::from_bytes(scrypt_raw(&p, &s))
}

/// The PBKDF2-derived seed, with the `0x02` domain-separation byte appended
/// to both inputs before hashing.
pub fn pbkdf2(passphrase: &[u8], salt: &[u8]) -> (r: Seed)
    ensures
        r.wf(),
        r@ == pbkdf2_seed_of(passphrase@, salt@),
{
    let mut p: Vec<u8> = Vec::new();
    p.extend_from_slice(passphrase);
    p.push(0x02);
    let mut s: Vec<u8> = Vec::new();
    s.extend_from_slice(salt);
    s.push(0x02);
    proof {
        assert(p@ =~= passphrase@.push(0x02u8));
        assert(s@ =~= salt@.push(0x02u8));
    }
    Seed::from_bytes(pbkdf2_raw(&p, &s))
}

/// The two KDFs never see the same input: their domain-separation suffixes
/// differ, so even equal raw passphrases and salts reach them as different
/// byte strings. (That their outputs then differ holds for all but a
/// negligible fraction of inputs, but is not provable here.)
pub proof fn lemma_domain_separation(p: Seq<u8>, s: Seq<u8>)
    ensures
        p.push(0x01u8) != p.push(0x02u8),
        s.push(0x01u8) != s.push(0x02u8),
{
    assert(p.push(0x01u8)[p.len() as int] == 0x01u8);
    assert(p.push(0x02u8)[p.len() as int] == 0x02u8);
    assert(s.push(0x01u8)[s.len() as int] == 0x01u8);
    assert(s.push(0x02u8)[s.len() as int] == 0x02u8);
}

/// The three seeds for an input: the scrypt seed, the PBKDF2 seed, and
/// their byte-wise XOR.
pub fn seeds(input: Input) -> (r: (Seed, Seed, Seed))
    ensures
        r.0.wf(),
        r.1.wf(),
        r.2.wf(),
        r.0@ == scrypt_seed_of(input.passphrase@, input.salt@),
        r.1@ == pbkdf2_seed_of(input.passphrase@, input.salt@),
        r.2@ == xor_bytes(r.0@, r.1@),
{
    let s1 = scrypt(input.passphrase.as_slice(), input.salt.as_slice());
    let s2 = pbkdf2(input.passphrase.as_slice(), input.salt.as_slice());
    let s3 = s1.combine(&s2);
    (s1, s2, s3)
}

} // verus!
