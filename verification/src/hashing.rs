//! Content fingerprinting: a streaming 64-bit digest of a file's bytes.
//!
//! The hasher absorbs byte chunks in order and finishes into a fingerprint
//! that depends only on the concatenation of the absorbed bytes.  The caller
//! reads a file strictly start to end and feeds every byte through `update`.

use vstd::prelude::*;
use core::hash::Hasher;

verus! {

/// The fingerprint of a byte sequence: the XXH64 digest with seed 0.
///
/// The digest is a pure function of the bytes alone — the seed is a fixed
/// constant, so two runs over unchanged content reproduce the same value.
pub uninterp spec fn xxh64(bytes: Seq<u8>) -> u64;

/// The type of the streaming XXH64 hasher of the `twox_hash` crate.
#[verifier::external_type_specification]
#[verifier::external_body]
pub struct ExXxHash64(twox_hash::XxHash64);

/// The bytes a streaming hasher state has absorbed so far, in order.
pub uninterp spec fn absorbed(h: twox_hash::XxHash64) -> Seq<u8>;

/// Relies on `twox_hash::XxHash64::with_seed`: a fresh hasher seeded with
/// the given constant, having absorbed nothing.
#[verifier::external_body]
fn hasher_new() -> (r: twox_hash::XxHash64)
    ensures
        absorbed(r) == Seq::<u8>::empty(),
{
    twox_hash::XxHash64::with_seed(0)
}

/// Relies on `core::hash::Hasher::write` for `twox_hash::XxHash64`:
/// absorbs the chunk after everything absorbed before.
#[verifier::external_body]
fn hasher_update(h: &mut twox_hash::XxHash64, chunk: &[u8])
    ensures
        absorbed(*final(h)) == absorbed(*old(h)) + chunk@,
{
    h.write(chunk);
}

/// Relies on `core::hash::Hasher::finish` for `twox_hash::XxHash64`: the
/// digest is a function of the seed and the absorbed bytes alone,
/// independent of how they were split into chunks (the crate tests
/// byte-by-byte against whole-buffer hashing).
#[verifier::external_body]
fn hasher_finish(h: &twox_hash::XxHash64) -> (r: u64)
    ensures
        r == xxh64(absorbed(*h)),
{
    h.finish()
}

/// Streams bytes through the XXH64 hash function, seed 0.
///
/// `bytes()` is the sequence of all bytes absorbed so far; the finished
/// digest is `xxh64` of that sequence, however the bytes were chunked.
pub struct ContentHasher {
    inner: twox_hash::XxHash64,
}

impl ContentHasher {
    /// The bytes absorbed so far, in order.
    pub closed spec fn bytes(&self) -> Seq<u8> {
        absorbed(self.inner)
    }

    /// A hasher that has absorbed nothing.
    pub fn new() -> (r: ContentHasher)
        ensures
            r.bytes() == Seq::<u8>::empty(),
    {
        ContentHasher { inner: hasher_new() }
    }

    /// Absorb one chunk after everything absorbed before.
    pub fn update(&mut self, chunk: &[u8])
        ensures
            final(self).bytes() == old(self).bytes() + chunk@,
    {
        hasher_update(&mut self.inner, chunk);
    }

    /// Finish into the fingerprint of the absorbed byte sequence.
    pub fn finish(&self) -> (r: u64)
        ensures
            r == xxh64(self.bytes()),
    {
        hasher_finish(&self.inner)
    }
}

/// Fingerprint a complete in-memory byte buffer in one step.
pub fn hash_bytes(data: &[u8]) -> (r: u64)
    ensures
        r == xxh64(data@),
{
    let mut h = ContentHasher::new();
    h.update(data);
    proof {
        assert(h.bytes() =~= data@);
    }
    h.finish()
}

/// Byte-identical contents carry the same fingerprint: the digest is a
/// function of the byte sequence, so equal sequences — however they were
/// read or chunked — finish to equal fingerprints.
pub proof fn lemma_fingerprint_of_content(b1: Seq<u8>, b2: Seq<u8>)
    requires
        b1 == b2,
    ensures
        xxh64(b1) == xxh64(b2),
{
}

} // verus!
