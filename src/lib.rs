//! Keccak-256 hashing and secp256k1 ECDSA signing of byte messages.
//!
//! A message is hashed with Keccak-256 (the original Keccak padding, as used by
//! Ethereum) and the 32-byte digest is signed with a deterministic (RFC 6979)
//! ECDSA signature, returned as 64 compact bytes `r ‖ s`.

pub mod error;
pub mod hash;
pub mod key;
pub mod sign;

pub use error::SignError;
pub use hash::{hash_is_deterministic, keccak256_hash};
pub use key::PrivateKey;
pub use sign::{sign, sign_is_deterministic, sign_recoverable, sign_recoverable_is_deterministic};
