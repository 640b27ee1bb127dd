//! The 32-byte hash oracle of the library.
//!
//! Transaction ids, transaction digests and merkle nodes are all values of
//! [`Hash32`], produced by a keyless 32-byte BLAKE2b digest over domain-tagged
//! input. The digest itself is supplied by an outside implementation and is
//! treated as an uninterpreted deterministic function of its input.

use vstd::prelude::*;

verus! {

/// What the 32-byte BLAKE2b digest of `data` is. The digest is a deterministic
/// function of the input bytes alone; nothing else is assumed about its value.
pub uninterp spec fn blake2b_digest(data: Seq<u8>) -> Seq<u8>;

/// Relies on `blake2b_simd::Params::hash` with `hash_length(32)`: a 32-byte
/// BLAKE2b digest of `data`, computed from `data` alone.
#[verifier::external_body]
fn blake2b_32(data: &[u8]) -> (r: Vec<u8>)
    ensures
        r@ == blake2b_digest(data@),
        r@.len() == 32,
{
    blake2b_simd::Params::new().hash_length(32).hash(data).as_bytes().to_vec()
}

/// A 32-byte hash, stored as four little-endian 64-bit words. Equality is by
/// raw bytes, which is by the words.
#[derive(Clone, Copy, Debug, PartialEq, Eq, Structural)]
pub struct Hash32 {
    pub w0: u64,
    pub w1: u64,
    pub w2: u64,
    pub w3: u64,
}

/// A transaction id is a hash of the transaction's canonical serialization.
pub type TransactionId = Hash32;

/// The 64-bit word encoded little-endian at offset `k` of `s`.
pub open spec fn le64_at(s: Seq<u8>, k: int) -> u64 {
    (s[k] + s[k + 1] * 0x100 + s[k + 2] * 0x1_0000 + s[k + 3] * 0x100_0000 + s[k + 4]
        * 0x1_0000_0000 + s[k + 5] * 0x100_0000_0000 + s[k + 6] * 0x1_0000_0000_0000 + s[k + 7]
        * 0x100_0000_0000_0000) as u64
}

/// The hash value whose 32-byte little-endian representation is `s`.
pub open spec fn hash32_from_bytes(s: Seq<u8>) -> Hash32 {
    Hash32 { w0: le64_at(s, 0), w1: le64_at(s, 8), w2: le64_at(s, 16), w3: le64_at(s, 24) }
}

/// The library's hash oracle: the digest of `data` prefixed by a domain tag,
/// read back as a [`Hash32`].
pub open spec fn spec_hash32(domain: u8, data: Seq<u8>) -> Hash32 {
    hash32_from_bytes(blake2b_digest(seq![domain] + data))
}

/// The all-zero hash, used as merkle padding.
pub open spec fn spec_zero_hash() -> Hash32 {
    Hash32 { w0: 0, w1: 0, w2: 0, w3: 0 }
}

pub(crate) fn zero_hash() -> (r: Hash32)
    ensures
        r == spec_zero_hash(),
{
    Hash32 { w0: 0, w1: 0, w2: 0, w3: 0 }
}

/// Reads the little-endian 64-bit word at offset `k`.
fn le64_from(bytes: &[u8], k: usize) -> (r: u64)
    requires
        k + 8 <= bytes@.len(),
    ensures
        r == le64_at(bytes@, k as int),
{
    bytes[k] as u64 + (bytes[k + 1] as u64) * 0x100 + (bytes[k + 2] as u64) * 0x1_0000 + (bytes[k
        + 3] as u64) * 0x100_0000 + (bytes[k + 4] as u64) * 0x1_0000_0000 + (bytes[k + 5] as u64)
        * 0x100_0000_0000 + (bytes[k + 6] as u64) * 0x1_0000_0000_0000 + (bytes[k + 7] as u64)
        * 0x100_0000_0000_0000
}

impl Hash32 {
    /// Builds a hash value from its 32-byte representation.
    pub fn from_slice(bytes: &[u8]) -> (r: Hash32)
        requires
            bytes@.len() == 32,
        ensures
            r == hash32_from_bytes(bytes@),
    {
        Hash32 {
            w0: le64_from(bytes, 0),
            w1: le64_from(bytes, 8),
            w2: le64_from(bytes, 16),
            w3: le64_from(bytes, 24),
        }
    }
}

/// Appends `data` to `buf`.
pub(crate) fn push_bytes(buf: &mut Vec<u8>, data: &[u8])
    ensures
        final(buf)@ == old(buf)@ + data@,
{
    let ghost orig: Seq<u8> = buf@;
    let n = data.len();
    for i in 0..n
        invariant
            n == data@.len(),
            buf@ == orig + data@.take(i as int),
    {
        buf.push(data[i]);
        assert(data@.take(i + 1) =~= data@.take(i as int) + seq![data@[i as int]]);
    }
    assert(data@.take(n as int) =~= data@);
}

/// Hashes `data` under the given domain tag.
pub(crate) fn hash32(domain: u8, data: &Vec<u8>) -> (r: Hash32)
    ensures
        r == spec_hash32(domain, data@),
{
    let mut buf: Vec<u8> = Vec::new();
    buf.push(domain);
    push_bytes(&mut buf, data.as_slice());
    assert(buf@ =~= seq![domain] + data@);
    let digest = blake2b_32(buf.as_slice());
    Hash32 {
        w0: le64_from(digest.as_slice(), 0),
        w1: le64_from(digest.as_slice(), 8),
        w2: le64_from(digest.as_slice(), 16),
        w3: le64_from(digest.as_slice(), 24),
    }
}

} // verus!
