//! Fingerprints of audio chunks.
//!
//! A fingerprint is the 64-bit digest that the standard library's default
//! hasher gives for a byte vector. Two reads of a stream are told apart by
//! comparing fingerprints only, so equal bytes always count as "unchanged",
//! and so do different bytes whose digests happen to collide.

use std::collections::hash_map::DefaultHasher;
use std::hash::Hash;
use std::hash::Hasher;
use vstd::prelude::*;
use vstd::std_specs::hash::DefaultHasherAdditionalSpecFns;

verus! {

/// The writes that hashing a `Vec<u8>` with these bytes performs on a hasher.
pub uninterp spec fn vec_hash_writes(bytes: Seq<u8>) -> Seq<Seq<u8>>;

/// The fingerprint of a chunk: the digest of a fresh default hasher after the
/// chunk has been hashed into it.
pub open spec fn chunk_fingerprint(bytes: Seq<u8>) -> u64 {
    DefaultHasher::spec_finish(vec_hash_writes(bytes))
}

/// Trusted: `<Vec<u8> as Hash>::hash`. The standard library hashes a vector
/// by a series of writes to the hasher that is determined by the vector's
/// length and bytes; the contract names that series and says it is appended
/// to what the hasher has already been fed.
#[verifier::external_body]
fn hash_vec_into(vec: &Vec<u8>, state: &mut DefaultHasher)
    ensures
        final(state)@ == old(state)@ + vec_hash_writes(vec@),
{
    vec.hash(state)
}

/// Computes the fingerprint of a chunk.
pub fn hash_vecu8(vec: &Vec<u8>) -> (hash: u64)
    ensures
        hash == chunk_fingerprint(vec@),
{
    let mut hasher = DefaultHasher::new();
    hash_vec_into(vec, &mut hasher);
    assert(hasher@ =~= vec_hash_writes(vec@));
    hasher.finish()
}

} // verus!
