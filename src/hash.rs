use tiny_keccak::Hasher;
use vstd::prelude::*;

verus! {

/// The Keccak-256 digest of a byte sequence, as tiny_keccak computes it.
pub uninterp spec fn keccak256_of(data: Seq<u8>) -> Seq<u8>;

/// Relies on tiny_keccak's `Keccak::v256`, `Hasher::update` and
/// `Hasher::finalize`: one update with the whole input, then 32 bytes of
/// output, which depend on the input bytes alone.
#[verifier::external_body]
fn keccak256_digest(data: &[u8]) -> (r: [u8; 32])
    ensures
        r@ == keccak256_of(data@),
{
    let mut hasher = tiny_keccak::Keccak::v256();
    hasher.update(data);
    let mut output = [0u8; 32];
    hasher.finalize(&mut output);
    output
}

/// Hashes `bytes` with Keccak-256.
pub fn keccak256_hash(bytes: &[u8]) -> (r: [u8; 32])
    ensures
        r@ == keccak256_of(bytes@),
        r@.len() == 32,
{
    keccak256_digest(bytes)
}

/// Hashing is deterministic and always gives 32 bytes: any two results of
/// `keccak256_hash` on the same message are equal and 32 bytes long.
pub proof fn hash_is_deterministic(m: Seq<u8>, r1: [u8; 32], r2: [u8; 32])
    requires
        r1@ == keccak256_of(m),
        r2@ == keccak256_of(m),
    ensures
        r1 == r2,
        r1@.len() == 32,
{
    assert(r1@ =~= r2@);
}

} // verus!
