//! The one call into an outside crate: the Blake2b-256 digest used to
//! derive a worker's pseudorandom identity for the heartbeat hit test.
use vstd::prelude::*;

verus! {

/// The 32-byte Blake2b-256 digest of `data`. The digest is a pure function
/// of the input bytes, so it can be named without being written out.
pub uninterp spec fn blake2_256_of(data: Seq<u8>) -> Seq<u8>;

/// Relies on `sp_core_hashing::blake2_256`: the 32-byte Blake2b digest of
/// the input, depending on the input bytes alone.
#[verifier::external_body]
pub(crate) fn blake2_256(data: &[u8]) -> (r: [u8; 32])
    ensures
        r@ == blake2_256_of(data@),
{
    sp_core_hashing::blake2_256(data)
}

} // verus!
