use crate::error::SignError;
use crate::hash::{keccak256_hash, keccak256_of};
use crate::key::{is_valid_secret_key, PrivateKey};
use vstd::prelude::*;

verus! {

#[verifier::external_type_specification]
#[verifier::external_body]
pub struct ExRecoveryId(secp256k1::ecdsa::RecoveryId);

/// The compact `r ‖ s` bytes of the deterministic ECDSA signature that
/// secp256k1's `sign_ecdsa` makes with a secret key over a 32-byte digest.
pub uninterp spec fn ecdsa_compact_of(key: Seq<u8>, digest: Seq<u8>) -> Seq<u8>;

/// The compact `r ‖ s` bytes of the deterministic ECDSA signature that
/// secp256k1's `sign_ecdsa_recoverable` makes with a secret key over a
/// 32-byte digest.
pub uninterp spec fn ecdsa_recoverable_compact_of(key: Seq<u8>, digest: Seq<u8>) -> Seq<u8>;

/// Relies on secp256k1's `Message::from_slice` (accepts exactly 32 bytes),
/// `SecretKey::from_slice` (accepts a valid secret scalar), and
/// `Secp256k1::sign_ecdsa` with `Signature::serialize_compact`: an RFC 6979
/// signature, so its 64 bytes depend on the key and the digest alone.
#[verifier::external_body]
fn ecdsa_sign_compact(key: &[u8], digest: &[u8]) -> (r: Result<[u8; 64], secp256k1::Error>)
    ensures
        r.is_ok() <==> (is_valid_secret_key(key@) && digest@.len() == 32),
        r matches Ok(sig) ==> sig@ == ecdsa_compact_of(key@, digest@),
{
    let msg = secp256k1::Message::from_slice(digest)?;
    let sk = secp256k1::SecretKey::from_slice(key)?;
    Ok(secp256k1::Secp256k1::signing_only().sign_ecdsa(&msg, &sk).serialize_compact())
}

/// Relies on secp256k1's `Message::from_slice` (accepts exactly 32 bytes),
/// `SecretKey::from_slice` (accepts a valid secret scalar), and
/// `Secp256k1::sign_ecdsa_recoverable` with
/// `RecoverableSignature::serialize_compact`: an RFC 6979 signature, so its
/// 64 bytes depend on the key and the digest alone.
#[verifier::external_body]
fn ecdsa_sign_recoverable_compact(key: &[u8], digest: &[u8]) -> (r: Result<
    (secp256k1::ecdsa::RecoveryId, [u8; 64]),
    secp256k1::Error,
>)
    ensures
        r.is_ok() <==> (is_valid_secret_key(key@) && digest@.len() == 32),
        r matches Ok(p) ==> p.1@ == ecdsa_recoverable_compact_of(key@, digest@),
{
    let msg = secp256k1::Message::from_slice(digest)?;
    let sk = secp256k1::SecretKey::from_slice(key)?;
    Ok(secp256k1::Secp256k1::signing_only().sign_ecdsa_recoverable(&msg, &sk).serialize_compact())
}

/// The signature that `sign` gives: ECDSA over the Keccak-256 digest of the
/// message.
pub open spec fn signature_of(key: Seq<u8>, message: Seq<u8>) -> Seq<u8> {
    ecdsa_compact_of(key, keccak256_of(message))
}

/// The signature that `sign_recoverable` gives: recoverable ECDSA over the
/// Keccak-256 digest of the message, without its recovery id.
pub open spec fn recoverable_signature_of(key: Seq<u8>, message: Seq<u8>) -> Seq<u8> {
    ecdsa_recoverable_compact_of(key, keccak256_of(message))
}

/// Signs the Keccak-256 digest of `message` with `private_key`, giving the
/// 64 compact bytes `r ‖ s`. Every key is valid and every digest is 32
/// bytes, so this always succeeds.
pub fn sign(private_key: &PrivateKey, message: &[u8]) -> (r: Result<[u8; 64], SignError>)
    ensures
        r is Ok,
        r->Ok_0@ == signature_of(private_key@, message@),
        r->Ok_0@.len() == 64,
{
    let hashed_message = keccak256_hash(message);
    let key = private_key.secret_bytes();
    match ecdsa_sign_compact(&key, &hashed_message) {
        Ok(signature) => Ok(signature),
        Err(_) => Err(SignError::InvalidMessage),
    }
}

/// Signs the Keccak-256 digest of `message` with `private_key` on the
/// recoverable path and drops the recovery id, giving the 64 compact bytes
/// `r ‖ s`. Every key is valid and every digest is 32 bytes, so this always
/// succeeds.
pub fn sign_recoverable(private_key: &PrivateKey, message: &[u8]) -> (r: Result<[u8; 64], SignError>)
    ensures
        r is Ok,
        r->Ok_0@ == recoverable_signature_of(private_key@, message@),
        r->Ok_0@.len() == 64,
{
    let hashed_message = keccak256_hash(message);
    let key = private_key.secret_bytes();
    match ecdsa_sign_recoverable_compact(&key, &hashed_message) {
        Ok((_recovery, signature)) => Ok(signature),
        Err(_) => Err(SignError::InvalidMessage),
    }
}

/// Signing is deterministic: any two signatures that `sign` gives for the
/// same key and message are the same 64 bytes.
pub proof fn sign_is_deterministic(key: Seq<u8>, message: Seq<u8>, s1: [u8; 64], s2: [u8; 64])
    requires
        s1@ == signature_of(key, message),
        s2@ == signature_of(key, message),
    ensures
        s1 == s2,
        s1@.len() == 64,
{
    assert(s1@ =~= s2@);
}

/// Recoverable signing is deterministic: any two signatures that
/// `sign_recoverable` gives for the same key and message are the same 64
/// bytes.
pub proof fn sign_recoverable_is_deterministic(
    key: Seq<u8>,
    message: Seq<u8>,
    s1: [u8; 64],
    s2: [u8; 64],
)
    requires
        s1@ == recoverable_signature_of(key, message),
        s2@ == recoverable_signature_of(key, message),
    ensures
        s1 == s2,
        s1@.len() == 64,
{
    assert(s1@ =~= s2@);
}

} // verus!
