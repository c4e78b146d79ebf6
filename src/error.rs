use vstd::prelude::*;

verus! {

/// Why a key could not be made or a message could not be signed.
#[derive(Debug, Clone, Copy, PartialEq, Eq, Structural)]
pub enum SignError {
    /// The 32 bytes are not a scalar in `1 .. n`, `n` the order of the curve.
    InvalidKey,
    /// The digest is not a 32-byte message for the signing call.
    InvalidMessage,
}

} // verus!
