//! Canonical byte encodings of cache-key inputs, and the hash functions the
//! caches are keyed with.
use std::hash::Hasher;

use vstd::bytes::{spec_u128_to_le_bytes, spec_u32_to_le_bytes, spec_u64_to_le_bytes};
use vstd::prelude::*;

verus! {

/// The value of rustc-hash's `FxHasher` after one `write` of `data`.
pub uninterp spec fn fx_hash_bytes(data: Seq<u8>) -> u64;

/// The value of rustc-hash's `FxHasher` after one `write_u32` of each word,
/// in order.
pub uninterp spec fn fx_hash_u32s(words: Seq<u32>) -> u64;

/// The xxh3-128 digest of `data`.
pub uninterp spec fn xxh3_128_digest(data: Seq<u8>) -> u128;

/// Hashes `data` with `rustc_hash::FxHasher`: a default hasher, one
/// `Hasher::write` of the bytes, then `Hasher::finish`. The result is a
/// deterministic function of the bytes (the hasher is unseeded), which is
/// all that is claimed here.
#[verifier::external_body]
pub(crate) fn fx_hash(data: &[u8]) -> (r: u64)
    ensures
        r == fx_hash_bytes(data@),
{
    let mut hasher = rustc_hash::FxHasher::default();
    hasher.write(data);
    hasher.finish()
}

/// Hashes `words` with `rustc_hash::FxHasher`: a default hasher, one
/// `Hasher::write_u32` per word in order, then `Hasher::finish`. Like
/// `fx_hash`, a deterministic function of its input and nothing more is
/// claimed of it.
#[verifier::external_body]
pub(crate) fn fx_hash_words(words: &[u32]) -> (r: u64)
    ensures
        r == fx_hash_u32s(words@),
{
    let mut hasher = rustc_hash::FxHasher::default();
    for word in words {
        hasher.write_u32(*word);
    }
    hasher.finish()
}

/// Digests `data` with `xxhash_rust::xxh3::xxh3_128`, a deterministic
/// function of the bytes.
#[verifier::external_body]
pub(crate) fn xxh3_128(data: &[u8]) -> (r: u128)
    ensures
        r == xxh3_128_digest(data@),
{
    xxhash_rust::xxh3::xxh3_128(data)
}

/// Encoding of a 32-bit word.
pub open spec fn enc_u32(x: u32) -> Seq<u8> {
    spec_u32_to_le_bytes(x)
}

/// Encoding of a 64-bit word.
pub open spec fn enc_u64(x: u64) -> Seq<u8> {
    spec_u64_to_le_bytes(x)
}

/// Encoding of a byte string: its length as a 64-bit word, then the bytes.
pub open spec fn enc_bytes(b: Seq<u8>) -> Seq<u8> {
    enc_u64(b.len() as u64) + b
}

/// Encoding of a character string: its UTF-8 bytes, length-prefixed.
pub open spec fn enc_str(s: Seq<char>) -> Seq<u8> {
    enc_bytes(vstd::utf8::encode_utf8(s))
}

/// An append-only byte buffer that serialises the inputs of a cache key.
pub struct HashInput {
    bytes: Vec<u8>,
}

impl HashInput {
    /// The bytes written so far.
    pub closed spec fn view(&self) -> Seq<u8> {
        self.bytes@
    }

    /// An empty buffer.
    pub fn new() -> (r: Self)
        ensures
            r.view() == Seq::<u8>::empty(),
    {
        HashInput { bytes: Vec::new() }
    }

    /// Appends one byte.
    pub fn push_u8(&mut self, x: u8)
        ensures
            final(self).view() == old(self).view().push(x),
    {
        self.bytes.push(x);
    }

    /// Appends a 32-bit word, little endian.
    pub fn push_u32(&mut self, x: u32)
        ensures
            final(self).view() == old(self).view() + enc_u32(x),
    {
        let mut b = vstd::bytes::u32_to_le_bytes(x);
        self.bytes.append(&mut b);
    }

    /// Appends a 64-bit word, little endian.
    pub fn push_u64(&mut self, x: u64)
        ensures
            final(self).view() == old(self).view() + enc_u64(x),
    {
        let mut b = vstd::bytes::u64_to_le_bytes(x);
        self.bytes.append(&mut b);
    }

    /// Appends a 128-bit word, little endian.
    pub fn push_u128(&mut self, x: u128)
        ensures
            final(self).view() == old(self).view() + spec_u128_to_le_bytes(x),
    {
        let mut b = vstd::bytes::u128_to_le_bytes(x);
        self.bytes.append(&mut b);
    }

    /// Appends a string: its UTF-8 length as a 64-bit word, then its bytes.
    pub fn push_str(&mut self, s: &str)
        ensures
            final(self).view() == old(self).view() + enc_str(s@),
    {
        let b = s.as_bytes();
        let len = b.len();
        self.push_u64(len as u64);
        let ghost mid = self.view();
        let mut i: usize = 0;
        while i < len
            invariant
                i <= len,
                len == b@.len(),
                self.view() == mid + b@.take(i as int),
            decreases len - i,
        {
            self.bytes.push(b[i]);
            i = i + 1;
            assert(self.view() =~= mid + b@.take(i as int));
        }
        assert(b@.take(len as int) =~= b@);
    }

    /// The FxHash of the bytes written.
    pub fn fx_finish(&self) -> (r: u64)
        ensures
            r == fx_hash_bytes(self.view()),
    {
        fx_hash(self.bytes.as_slice())
    }
}

/// Length-prefixed byte strings never run into what follows them: equal
/// encodings of two strings followed by anything determine both parts.
pub proof fn lemma_enc_bytes_prefix_free(a: Seq<u8>, ra: Seq<u8>, b: Seq<u8>, rb: Seq<u8>)
    requires
        a.len() <= u64::MAX,
        b.len() <= u64::MAX,
        enc_bytes(a) + ra == enc_bytes(b) + rb,
    ensures
        a == b,
        ra == rb,
{
    vstd::bytes::lemma_auto_spec_u64_to_from_le_bytes();
    let ea = enc_bytes(a) + ra;
    let eb = enc_bytes(b) + rb;
    assert(ea.subrange(0, 8) =~= enc_u64(a.len() as u64));
    assert(eb.subrange(0, 8) =~= enc_u64(b.len() as u64));
    assert(vstd::bytes::spec_u64_from_le_bytes(enc_u64(a.len() as u64)) == a.len() as u64);
    assert(vstd::bytes::spec_u64_from_le_bytes(enc_u64(b.len() as u64)) == b.len() as u64);
    assert(a.len() == b.len());
    assert(a =~= ea.subrange(8, 8 + a.len() as int));
    assert(b =~= eb.subrange(8, 8 + b.len() as int));
    assert(ra =~= ea.subrange(8 + a.len() as int, ea.len() as int));
    assert(rb =~= eb.subrange(8 + b.len() as int, eb.len() as int));
}

} // verus!
