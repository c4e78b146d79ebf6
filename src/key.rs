use crate::error::SignError;
use vstd::prelude::*;

verus! {

#[verifier::external_type_specification]
#[verifier::external_body]
pub struct ExSecretKey(secp256k1::SecretKey);

#[verifier::external_type_specification]
#[verifier::external_body]
pub struct ExSecpError(secp256k1::Error);

/// The order `n` of the secp256k1 group.
pub open spec fn curve_order() -> nat {
    0xFFFF_FFFF_FFFF_FFFF_FFFF_FFFF_FFFF_FFFE * 0x1_0000_0000_0000_0000 * 0x1_0000_0000_0000_0000
        + 0xBAAE_DCE6_AF48_A03B_BFD2_5E8C_D036_4141
}

/// The unsigned integer that `s` encodes, most significant byte first.
pub open spec fn be_value(s: Seq<u8>) -> nat
    decreases s.len(),
{
    if s.len() == 0 {
        0
    } else {
        be_value(s.drop_last()) * 256 + s.last() as nat
    }
}

/// 32 bytes that encode a secret scalar: neither zero nor at least the
/// group order.
pub open spec fn is_valid_secret_key(s: Seq<u8>) -> bool {
    &&& s.len() == 32
    &&& 0 < be_value(s)
    &&& be_value(s) < curve_order()
}

/// Relies on `secp256k1::SecretKey::from_slice`: it accepts exactly 32 bytes
/// whose big-endian value is neither zero nor at least the group order
/// (`secp256k1_ec_seckey_verify`).
#[verifier::external_body]
fn secret_key_from_slice(data: &[u8]) -> (r: Result<secp256k1::SecretKey, secp256k1::Error>)
    ensures
        r.is_ok() <==> is_valid_secret_key(data@),
{
    secp256k1::SecretKey::from_slice(data)
}

/// A secp256k1 private key, held as its 32 big-endian bytes.
pub struct PrivateKey {
    bytes: [u8; 32],
}

impl View for PrivateKey {
    type V = Seq<u8>;

    closed spec fn view(&self) -> Seq<u8> {
        self.bytes@
    }
}

impl PrivateKey {
    #[verifier::type_invariant]
    spec fn inv(self) -> bool {
        is_valid_secret_key(self.bytes@)
    }

    /// Makes a key of 32 bytes, which the curve library checks to be a
    /// valid secret scalar.
    pub fn from_bytes(bytes: [u8; 32]) -> (r: Result<PrivateKey, SignError>)
        ensures
            is_valid_secret_key(bytes@) <==> r.is_ok(),
            r matches Ok(k) ==> k@ == bytes@,
            r matches Err(e) ==> e == SignError::InvalidKey,
    {
        match secret_key_from_slice(&bytes) {
            Ok(_) => Ok(PrivateKey { bytes }),
            Err(_) => Err(SignError::InvalidKey),
        }
    }

    /// The key's 32 bytes.
    pub fn secret_bytes(&self) -> (r: [u8; 32])
        ensures
            r@ == self@,
            is_valid_secret_key(r@),
    {
        proof {
            use_type_invariant(self);
        }
        self.bytes
    }
}

} // verus!
