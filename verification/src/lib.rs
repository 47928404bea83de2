//! Deterministic brain-wallet derivation: two independent key-derivation
//! functions are run over a passphrase and salt, their 32-byte outputs are
//! mixed by byte-wise XOR into a final seed, the seed is interpreted as a
//! secp256k1 private scalar, and the resulting key material is encoded in
//! the standard checksummed Base58 textual forms.

pub mod encode;
pub mod kdf;
pub mod key;
pub mod scalar;
pub mod seed;
pub mod validate;
pub mod wallet;

pub use kdf::pbkdf2;
pub use kdf::scrypt;
pub use kdf::seeds;
pub use seed::HexError;
pub use seed::Seed;
pub use validate::Input;
pub use validate::ValidationError;
pub use validate::validate;
pub use wallet::DeriveError;
pub use wallet::Output;
