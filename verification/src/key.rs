//! Mapping the final seed to a secp256k1 private scalar and its public
//! point.

use vstd::prelude::*;
use crate::scalar::be_val;
use crate::scalar::is_zero_bytes;
use crate::scalar::lt_bytes;
use crate::seed::Seed;

verus! {

/// The big-endian bytes of the secp256k1 group order.
pub open spec fn curve_order_seq() -> Seq<u8> {
    seq![
        0xffu8,
        0xffu8,
        0xffu8,
        0xffu8,
        0xffu8,
        0xffu8,
        0xffu8,
        0xffu8,
        0xffu8,
        0xffu8,
        0xffu8,
        0xffu8,
        0xffu8,
        0xffu8,
        0xffu8,
        0xfeu8,
        0xbau8,
        0xaeu8,
        0xdcu8,
        0xe6u8,
        0xafu8,
        0x48u8,
        0xa0u8,
        0x3bu8,
        0xbfu8,
        0xd2u8,
        0x5eu8,
        0x8cu8,
        0xd0u8,
        0x36u8,
        0x41u8,
        0x41u8,
    ]
}

/// Whether a 32-byte string denotes a valid private scalar: strictly between
/// zero and the group order.
pub open spec fn scalar_in_range(s: Seq<u8>) -> bool {
    &&& s.len() == 32
    &&& 0 < be_val(s)
    &&& be_val(s) < be_val(curve_order_seq())
}

/// Why a seed could not become a key.
#[derive(Clone, Copy, Debug, PartialEq, Eq, Structural)]
pub enum KeyError {
    /// The seed's big-endian integer is zero or at least the group order.
    InvalidScalar,
}

/// A private scalar together with the uncompressed serialization of its
/// public point; immutable once derived.
pub struct KeyPair {
    /// The private scalar, as the 32 seed bytes it was read from.
    pub secret: Seed,
    /// The public point `scalar * G`, serialized uncompressed (65 bytes).
    pub public_point: Vec<u8>,
}

impl KeyPair {
    /// A key pair holds a valid scalar and the serialization of exactly its
    /// public point.
    pub open spec fn wf(&self) -> bool {
        &&& self.secret.wf()
        &&& scalar_in_range(self.secret@)
        &&& self.public_point@ == pubkey_of(self.secret@)
        &&& self.public_point@.len() == 65
    }
}

/// The 65-byte uncompressed serialization of `scalar * G` on secp256k1, for
/// a scalar in `[1, order - 1]`.
pub uninterp spec fn pubkey_of(scalar: Seq<u8>) -> Seq<u8>;

/// The group order, as bytes.
pub fn curve_order_bytes() -> (r: Vec<u8>)
    ensures
        r@ == curve_order_seq(),
{
    let v: Vec<u8> = vec![
        0xff, 0xff, 0xff, 0xff, 0xff, 0xff, 0xff, 0xff, 0xff, 0xff, 0xff, 0xff, 0xff, 0xff, 0xff,
        0xfe, 0xba, 0xae, 0xdc, 0xe6, 0xaf, 0x48, 0xa0, 0x3b, 0xbf, 0xd2, 0x5e, 0x8c, 0xd0, 0x36,
        0x41, 0x41,
    ];
    proof {
        assert(v@ =~= curve_order_seq());
    }
    v
}

/// Relies on secp256k1::SecretKey::from_secret_bytes, which accepts exactly
/// the scalars in `[1, order - 1]`, and secp256k1::PublicKey::from_secret_key
/// with PublicKey::serialize_uncompressed, which return the 65-byte
/// uncompressed serialization of `scalar * G`; the result depends on the
/// scalar alone.
#[verifier::external_body]
fn secp_pubkey_uncompressed(scalar: &Vec<u8>) -> (r: Vec<u8>)
    requires
        scalar@.len() == 32,
        scalar_in_range(scalar@),
    ensures
        r@ == pubkey_of(scalar@),
        r@.len() == 65,
{
    let mut arr = [0u8; 32];
    arr.copy_from_slice(scalar.as_slice());
    let sk = secp256k1::SecretKey::from_secret_bytes(arr).unwrap();
    let pk = secp256k1::PublicKey::from_secret_key(&sk);
    pk.serialize_uncompressed().to_vec()
}

/// Interprets the seed as a big-endian 256-bit integer; if it lies in
/// `[1, order - 1]` the key pair is derived, otherwise the seed is rejected
/// as an invalid scalar — never clamped, re-hashed or retried.
pub fn derive_key(seed: &Seed) -> (r: Result<KeyPair, KeyError>)
    requires
        seed.wf(),
    ensures
        match r {
            Ok(kp) => {
                &&& scalar_in_range(seed@)
                &&& kp.wf()
                &&& kp.secret@ == seed@
            },
            Err(e) => {
                &&& e == KeyError::InvalidScalar
                &&& !scalar_in_range(seed@)
            },
        },
{
    let bytes = seed.to_bytes();
    if is_zero_bytes(bytes.as_slice()) {
        return Err(KeyError::InvalidScalar);
    }
    let order = curve_order_bytes();
    if !lt_bytes(bytes.as_slice(), order.as_slice()) {
        return Err(KeyError::InvalidScalar);
    }
    let public_point = secp_pubkey_uncompressed(&bytes);
    Ok(KeyPair { secret: Seed::from_bytes(bytes), public_point })
}

/// A seed denoting zero, or denoting exactly the group order, is never a
/// valid scalar: derivation must reject it rather than fall back to some
/// other key.
pub proof fn lemma_scalar_boundary(seed: Seed)
    requires
        seed.wf(),
        be_val(seed@) == 0 || be_val(seed@) == be_val(curve_order_seq()),
    ensures
        !scalar_in_range(seed@),
{
}

} // verus!
