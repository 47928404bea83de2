//! Encoding key material into the standard checksummed Base58 textual
//! forms: the private key as uncompressed-form WIF, the address as
//! pay-to-pubkey-hash.

use vstd::prelude::*;
use crate::key::KeyPair;

verus! {

/// The 32-byte SHA-256 digest of a byte string.
pub uninterp spec fn sha256_of(data: Seq<u8>) -> Seq<u8>;

/// The 20-byte RIPEMD-160 digest of a byte string.
pub uninterp spec fn ripemd160_of(data: Seq<u8>) -> Seq<u8>;

/// The Base58 rendering of a byte string: standard 58-character alphabet,
/// no padding, leading zero bytes as leading `1` characters.
pub uninterp spec fn base58_of(data: Seq<u8>) -> Seq<char>;

/// The 4-byte checksum of a payload: the first four bytes of its double
/// SHA-256 digest.
pub open spec fn checksum4(payload: Seq<u8>) -> Seq<u8> {
    sha256_of(sha256_of(payload)).subrange(0, 4)
}

/// The WIF byte string for a private scalar, uncompressed form: the version
/// byte `0x80`, the 32 scalar bytes, and the 4-byte checksum; no
/// compression-flag byte.
pub open spec fn wif_payload(scalar: Seq<u8>) -> Seq<u8> {
    (seq![0x80u8] + scalar) + checksum4(seq![0x80u8] + scalar)
}

/// The WIF text for a private scalar: its WIF byte string in Base58.
pub open spec fn wif_text_of(scalar: Seq<u8>) -> Seq<char> {
    base58_of(wif_payload(scalar))
}

/// The address byte string for an uncompressed public point: the version
/// byte `0x00`, the RIPEMD-160 of the SHA-256 of the point serialization,
/// and the 4-byte checksum.
pub open spec fn address_payload(pub_point: Seq<u8>) -> Seq<u8> {
    (seq![0x00u8] + ripemd160_of(sha256_of(pub_point))) + checksum4(
        seq![0x00u8] + ripemd160_of(sha256_of(pub_point)),
    )
}

/// The address text for an uncompressed public point: its address byte
/// string in Base58.
pub open spec fn address_text_of(pub_point: Seq<u8>) -> Seq<char> {
    base58_of(address_payload(pub_point))
}

/// Relies on bitcoin::hashes::sha256: the digest is 32 bytes and depends on
/// the input bytes alone.
#[verifier::external_body]
fn sha256_bytes(data: &Vec<u8>) -> (r: Vec<u8>)
    ensures
        r@ == sha256_of(data@),
        r@.len() == 32,
{
    let h = <bitcoin::hashes::sha256::Hash as bitcoin::hashes::Hash>::hash(data.as_slice());
    bitcoin::hashes::Hash::to_byte_array(h).to_vec()
}

/// Relies on bitcoin::hashes::ripemd160: the digest is 20 bytes and depends
/// on the input bytes alone.
#[verifier::external_body]
fn ripemd160_bytes(data: &Vec<u8>) -> (r: Vec<u8>)
    ensures
        r@ == ripemd160_of(data@),
        r@.len() == 20,
{
    let h = <bitcoin::hashes::ripemd160::Hash as bitcoin::hashes::Hash>::hash(data.as_slice());
    bitcoin::hashes::Hash::to_byte_array(h).to_vec()
}

/// Relies on bitcoin::base58::encode: the Base58 text of the bytes, which
/// depends on the input bytes alone.
#[verifier::external_body]
fn base58_encode(data: &Vec<u8>) -> (r: String)
    ensures
        r@ == base58_of(data@),
{
    bitcoin::base58::encode(data.as_slice())
}

/// Appends the 4-byte checksum of the payload's current contents.
fn push_checksum(payload: &mut Vec<u8>)
    ensures
        final(payload)@ == old(payload)@ + checksum4(old(payload)@),
{
    let h1 = sha256_bytes(payload);
    let h2 = sha256_bytes(&h1);
    payload.push(h2[0]);
    payload.push(h2[1]);
    payload.push(h2[2]);
    payload.push(h2[3]);
    proof {
        assert(payload@ =~= old(payload)@ + checksum4(old(payload)@));
    }
}

/// Encodes a key pair as its WIF private-key text and its address text.
/// Both are deterministic pure functions of the key material.
pub fn encode(kp: &KeyPair) -> (r: (String, String))
    requires
        kp.wf(),
    ensures
        r.0@ == wif_text_of(kp.secret@),
        r.1@ == address_text_of(kp.public_point@),
{
    // WIF: version byte, scalar, checksum.
    let mut wif: Vec<u8> = Vec::new();
    wif.push(0x80);
    let secret_bytes = kp.secret.to_bytes();
    wif.extend_from_slice(secret_bytes.as_slice());
    proof {
        assert(wif@ =~= seq![0x80u8] + kp.secret@);
    }
    push_checksum(&mut wif);
    let private_key_text = base58_encode(&wif);

    // Address: version byte, RIPEMD-160 of SHA-256 of the public point,
    // checksum.
    let sha = sha256_bytes(&kp.public_point);
    let hash160 = ripemd160_bytes(&sha);
    let mut addr: Vec<u8> = Vec::new();
    addr.push(0x00);
    addr.extend_from_slice(hash160.as_slice());
    proof {
        assert(addr@ =~= seq![0x00u8] + ripemd160_of(sha256_of(kp.public_point@)));
    }
    push_checksum(&mut addr);
    let address_text = base58_encode(&addr);

    (private_key_text, address_text)
}

} // verus!
