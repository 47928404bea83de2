//! The full derivation pipeline: validation, the two KDFs, the XOR
//! combination, the scalar range check, and the textual encodings.

use vstd::prelude::*;
use crate::encode::address_text_of;
use crate::encode::encode;
use crate::encode::wif_text_of;
use crate::kdf::pbkdf2_seed_of;
use crate::kdf::scrypt_seed_of;
use crate::kdf::seeds;
use crate::key::derive_key;
use crate::key::pubkey_of;
use crate::key::scalar_in_range;
use crate::seed::Seed;
use crate::seed::xor_bytes;
use crate::validate::ValidationError;
use crate::validate::validate;
use crate::validate::validation_of;

verus! {

/// Why a derivation failed.
#[derive(Clone, Copy, Debug, PartialEq, Eq, Structural)]
pub enum DeriveError {
    /// The passphrase/salt pair was rejected before any KDF ran.
    Validation(ValidationError),
    /// The combined seed fell outside `[1, order - 1]`; this is surfaced,
    /// never silently clamped or retried.
    InvalidScalar,
}

/// The result of one derivation: the three seeds and the two encoded texts.
pub struct Output {
    /// The scrypt-derived seed.
    pub s1: Seed,
    /// The PBKDF2-derived seed.
    pub s2: Seed,
    /// The byte-wise XOR of the two.
    pub s3: Seed,
    /// The private scalar in WIF text, uncompressed form.
    pub private_key: String,
    /// The pay-to-pubkey-hash address text.
    pub address: String,
}

/// The final seed for a passphrase and salt: the XOR of the two KDF seeds.
pub open spec fn seed3_of(p: Seq<u8>, s: Seq<u8>) -> Seq<u8> {
    xor_bytes(scrypt_seed_of(p, s), pbkdf2_seed_of(p, s))
}

/// Whether an output holds exactly the values derived from a passphrase and
/// salt: each field is a fixed function of the two inputs.
pub open spec fn output_matches(o: Output, p: Seq<u8>, s: Seq<u8>) -> bool {
    &&& o.s1@ == scrypt_seed_of(p, s)
    &&& o.s2@ == pbkdf2_seed_of(p, s)
    &&& o.s3@ == seed3_of(p, s)
    &&& o.private_key@ == wif_text_of(seed3_of(p, s))
    &&& o.address@ == address_text_of(pubkey_of(seed3_of(p, s)))
}

/// Runs the whole pipeline on a passphrase and salt: validation first, then
/// both KDFs, the XOR combination, the scalar range check, and the
/// encodings. Every field of a successful output is a fixed function of the
/// two inputs.
pub fn derive(passphrase: &[u8], salt: &[u8]) -> (r: Result<Output, DeriveError>)
    ensures
        match r {
            Ok(o) => {
                &&& validation_of(passphrase@, salt@) is None
                &&& scalar_in_range(seed3_of(passphrase@, salt@))
                &&& o.s1.wf()
                &&& o.s2.wf()
                &&& o.s3.wf()
                &&& output_matches(o, passphrase@, salt@)
            },
            Err(e) => match e {
                DeriveError::Validation(v) => validation_of(passphrase@, salt@) == Some(v),
                DeriveError::InvalidScalar => {
                    &&& validation_of(passphrase@, salt@) is None
                    &&& !scalar_in_range(seed3_of(passphrase@, salt@))
                },
            },
        },
{
    let input = match validate(passphrase, salt) {
        Ok(input) => input,
        Err(e) => {
            return Err(DeriveError::Validation(e));
        },
    };
    let (s1, s2, s3) = seeds(input);
    let kp = match derive_key(&s3) {
        Ok(kp) => kp,
        Err(_) => {
            return Err(DeriveError::InvalidScalar);
        },
    };
    let (private_key, address) = encode(&kp);
    Ok(Output { s1, s2, s3, private_key, address })
}

/// Determinism: two outputs that both match the same passphrase and salt
/// agree on every seed and on both encoded texts.
pub proof fn lemma_derive_deterministic(o1: Output, o2: Output, p: Seq<u8>, s: Seq<u8>)
    requires
        output_matches(o1, p, s),
        output_matches(o2, p, s),
    ensures
        o1.s1@ == o2.s1@,
        o1.s2@ == o2.s2@,
        o1.s3@ == o2.s3@,
        o1.private_key@ == o2.private_key@,
        o1.address@ == o2.address@,
{
}

} // verus!
