//! Content digests and the 256-bit hash type used as identity everywhere.
//!
//! A hash is held as four 64-bit little-endian limbs so that it is a plain
//! copyable value with structural equality. The digest itself is computed by
//! an outside implementation of Blake2b-256 and is only named, never
//! restated, in specifications.

use vstd::prelude::*;
use vstd::bytes::{
    lemma_auto_spec_u64_to_from_le_bytes, spec_u64_from_le_bytes, spec_u64_to_le_bytes,
    u64_from_le_bytes, u64_to_le_bytes,
};
use vstd::slice::slice_subrange;
use blake2::Digest;

verus! {

/// The Blake2b-256 digest of a byte string, named but not restated: the same
/// bytes always give the same digest, and nothing more is assumed of it.
pub uninterp spec fn blake2_256_of(data: Seq<u8>) -> Seq<u8>;

/// Relies on blake2's `Blake2b256`: a 32-byte digest that depends on the
/// input bytes alone.
#[verifier::external_body]
fn blake2_256_digest(data: &[u8]) -> (r: Vec<u8>)
    ensures
        r@ == blake2_256_of(data@),
        r@.len() == 32,
{
    blake2::Blake2b256::digest(data).0.to_vec()
}

/// Blake2b-256 digest of `data`, as 32 bytes.
pub fn blake2_256(data: &[u8]) -> (r: Vec<u8>)
    ensures
        r@ == blake2_256_of(data@),
        r@.len() == 32,
{
    blake2_256_digest(data)
}

/// A 256-bit hash as four little-endian 64-bit limbs; the identity of
/// blocks, operations and shards.
#[derive(Clone, Copy, Debug, PartialEq, Eq, Hash, Structural)]
pub struct H256 {
    pub w0: u64,
    pub w1: u64,
    pub w2: u64,
    pub w3: u64,
}

/// The hash whose 32 bytes are `s`, little-endian limb by limb.
pub open spec fn spec_h256_from_bytes(s: Seq<u8>) -> H256 {
    H256 {
        w0: spec_u64_from_le_bytes(s.subrange(0, 8)),
        w1: spec_u64_from_le_bytes(s.subrange(8, 16)),
        w2: spec_u64_from_le_bytes(s.subrange(16, 24)),
        w3: spec_u64_from_le_bytes(s.subrange(24, 32)),
    }
}

/// The 32 bytes of a hash, little-endian limb by limb.
pub open spec fn spec_h256_to_bytes(h: H256) -> Seq<u8> {
    spec_u64_to_le_bytes(h.w0) + spec_u64_to_le_bytes(h.w1) + spec_u64_to_le_bytes(h.w2)
        + spec_u64_to_le_bytes(h.w3)
}

/// The hash of a byte string: its Blake2b-256 digest, read as a hash value.
pub open spec fn h256_of(data: Seq<u8>) -> H256 {
    spec_h256_from_bytes(blake2_256_of(data))
}

/// Reads a hash out of exactly 32 bytes.
pub fn hash_from_slice(hash_slice: &[u8]) -> (r: H256)
    requires
        hash_slice@.len() == 32,
    ensures
        r == spec_h256_from_bytes(hash_slice@),
{
    H256 {
        w0: u64_from_le_bytes(slice_subrange(hash_slice, 0, 8)),
        w1: u64_from_le_bytes(slice_subrange(hash_slice, 8, 16)),
        w2: u64_from_le_bytes(slice_subrange(hash_slice, 16, 24)),
        w3: u64_from_le_bytes(slice_subrange(hash_slice, 24, 32)),
    }
}

/// Writes the 32 bytes of a hash.
pub fn h256_to_bytes(h: &H256) -> (r: Vec<u8>)
    ensures
        r@ == spec_h256_to_bytes(*h),
        r@.len() == 32,
{
    proof {
        lemma_auto_spec_u64_to_from_le_bytes();
    }
    let mut r = u64_to_le_bytes(h.w0);
    let mut b1 = u64_to_le_bytes(h.w1);
    let mut b2 = u64_to_le_bytes(h.w2);
    let mut b3 = u64_to_le_bytes(h.w3);
    r.append(&mut b1);
    r.append(&mut b2);
    r.append(&mut b3);
    r
}

/// The Blake2b-256 digest of `data`, as a hash value.
pub fn content_hash(data: &[u8]) -> (r: H256)
    ensures
        r == h256_of(data@),
{
    let digest = blake2_256_digest(data);
    hash_from_slice(digest.as_slice())
}

} // verus!
