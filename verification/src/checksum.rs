//! The checksum engine: CRC32 over a file's byte content.
//!
//! The arithmetic itself is done by the `crc32fast` crate; this module pins
//! its behaviour to the uninterpreted function [`crc32_of`] through a small
//! set of trusted wrappers, and builds verified one-shot and streaming
//! entry points on top of them.  Both entry points return
//! `crc32_of` of the bytes they were given, which is what makes the two
//! read strategies interchangeable.

use vstd::prelude::*;

verus! {

/// The final value of a CRC32 checksum round.
pub type Crc32 = u32;

/// The CRC32 checksum of a byte sequence.  The value is fixed by the
/// `crc32fast` crate; nothing in this crate interprets it beyond equality.
pub uninterp spec fn crc32_of(bytes: Seq<u8>) -> u32;

/// The bytes a `crc32fast::Hasher` has absorbed so far.
pub uninterp spec fn hasher_fed(h: crc32fast::Hasher) -> Seq<u8>;

#[verifier::external_type_specification]
#[verifier::external_body]
pub struct ExHasher(crc32fast::Hasher);

/// Relies on `crc32fast::Hasher::new`: a fresh hasher has absorbed nothing.
#[verifier::external_body]
fn hasher_new() -> (h: crc32fast::Hasher)
    ensures
        hasher_fed(h) == Seq::<u8>::empty(),
{
    crc32fast::Hasher::new()
}

/// Relies on `crc32fast::Hasher::update`: the hasher absorbs exactly the
/// given bytes, after everything it had absorbed before.  The byte counter
/// kept by the hasher is a `u64`, so the total absorbed length must fit it.
#[verifier::external_body]
fn hasher_update(h: &mut crc32fast::Hasher, data: &[u8])
    requires
        hasher_fed(*old(h)).len() + data@.len() <= u64::MAX,
    ensures
        hasher_fed(*final(h)) == hasher_fed(*old(h)) + data@,
{
    h.update(data);
}

/// Relies on `crc32fast::Hasher::finalize`: the checksum is a function of
/// the absorbed bytes alone.
#[verifier::external_body]
fn hasher_finalize(h: crc32fast::Hasher) -> (r: u32)
    ensures
        r == crc32_of(hasher_fed(h)),
{
    h.finalize()
}

/// An in-progress CRC32 computation over a stream of byte chunks.
pub struct Crc32Stream {
    hasher: crc32fast::Hasher,
}

impl Crc32Stream {
    /// The bytes this stream has been fed so far.
    pub closed spec fn fed(&self) -> Seq<u8> {
        hasher_fed(self.hasher)
    }

    /// A fresh stream that has been fed nothing.
    pub fn new() -> (s: Self)
        ensures
            s.fed() == Seq::<u8>::empty(),
    {
        Crc32Stream { hasher: hasher_new() }
    }

    /// Feeds one chunk of bytes to the stream.
    pub fn update(&mut self, data: &[u8])
        requires
            old(self).fed().len() + data@.len() <= u64::MAX,
        ensures
            final(self).fed() == old(self).fed() + data@,
    {
        hasher_update(&mut self.hasher, data);
    }

    /// Finishes the stream and returns the checksum of everything fed.
    pub fn finalize(self) -> (r: Crc32)
        ensures
            r == crc32_of(self.fed()),
    {
        hasher_finalize(self.hasher)
    }
}

/// The concatenation of a sequence of byte chunks.
pub open spec fn concat_chunks(chunks: Seq<Seq<u8>>) -> Seq<u8>
    decreases chunks.len(),
{
    if chunks.len() == 0 {
        Seq::empty()
    } else {
        concat_chunks(chunks.drop_last()) + chunks.last()
    }
}

/// The checksum of a whole in-memory buffer.
pub fn crc32_of_bytes(data: &[u8]) -> (r: Crc32)
    ensures
        r == crc32_of(data@),
{
    proof {
        vstd::slice::axiom_spec_len(data);
    }
    let mut s = Crc32Stream::new();
    s.update(data);
    proof {
        assert(s.fed() =~= data@);
    }
    s.finalize()
}

/// The checksum of a buffer presented as a sequence of chunks, fed to the
/// stream one chunk at a time.  The total length must fit the hasher's
/// `u64` byte counter.
pub fn crc32_of_chunks(chunks: &Vec<Vec<u8>>) -> (r: Crc32)
    requires
        concat_chunks(chunks@.map_values(|c: Vec<u8>| c@)).len() <= u64::MAX,
    ensures
        r == crc32_of(concat_chunks(chunks@.map_values(|c: Vec<u8>| c@))),
{
    let ghost all = chunks@.map_values(|c: Vec<u8>| c@);
    let mut s = Crc32Stream::new();
    let mut i: usize = 0;
    while i < chunks.len()
        invariant
            i <= chunks.len(),
            all == chunks@.map_values(|c: Vec<u8>| c@),
            concat_chunks(all).len() <= u64::MAX,
            s.fed() == concat_chunks(all.take(i as int)),
        decreases chunks.len() - i,
    {
        proof {
            lemma_concat_chunks_take(all, i as int);
            lemma_concat_chunks_prefix_len(all, i + 1);
        }
        s.update(chunks[i].as_slice());
        i = i + 1;
    }
    proof {
        assert(all.take(chunks@.len() as int) =~= all);
    }
    s.finalize()
}

/// Peeling one chunk off the end of a prefix of `chunks`.
proof fn lemma_concat_chunks_take(chunks: Seq<Seq<u8>>, i: int)
    requires
        0 <= i < chunks.len(),
    ensures
        concat_chunks(chunks.take(i + 1)) == concat_chunks(chunks.take(i)) + chunks[i],
{
    assert(chunks.take(i + 1).drop_last() =~= chunks.take(i));
    assert(chunks.take(i + 1).last() == chunks[i]);
}

/// A prefix of the chunks concatenates to at most the whole concatenation.
proof fn lemma_concat_chunks_prefix_len(chunks: Seq<Seq<u8>>, i: int)
    requires
        0 <= i <= chunks.len(),
    ensures
        concat_chunks(chunks.take(i)).len() <= concat_chunks(chunks).len(),
    decreases chunks.len() - i,
{
    if i == chunks.len() {
        assert(chunks.take(i) =~= chunks);
    } else {
        lemma_concat_chunks_take(chunks, i);
        lemma_concat_chunks_prefix_len(chunks, i + 1);
    }
}

/// Computing the checksum by streaming chunks and computing it over the
/// chunks' concatenation in one buffer give the same value.
pub proof fn lemma_stream_matches_whole(chunks: Seq<Seq<u8>>, whole: Seq<u8>)
    requires
        concat_chunks(chunks) == whole,
    ensures
        crc32_of(concat_chunks(chunks)) == crc32_of(whole),
{
}

/// The checksum is a function of the byte content alone: two computations
/// over equal contents give equal values.
pub proof fn lemma_checksum_deterministic(a: Seq<u8>, b: Seq<u8>)
    requires
        a == b,
    ensures
        crc32_of(a) == crc32_of(b),
{
}

} // verus!
