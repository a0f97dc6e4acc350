//! The hasher abstraction: an accumulate-then-finalize interface over the
//! mixing core, plus the marker capability that sanctions the algorithm for
//! cross-check use.

use vstd::prelude::*;

use crate::mixing::{absorb, digest, lemma_absorb_take_step, mix, mix_word};

verus! {

/// The 64-bit word formed from eight bytes read in little-endian order.
pub open spec fn le_word(bs: Seq<u8>) -> u64
    recommends
        bs.len() == 8,
{
    (bs[0] as u64) | ((bs[1] as u64) << 8u64) | ((bs[2] as u64) << 16u64) | ((bs[3] as u64)
        << 24u64) | ((bs[4] as u64) << 32u64) | ((bs[5] as u64) << 40u64) | ((bs[6] as u64)
        << 48u64) | ((bs[7] as u64) << 56u64)
}

/// A byte sequence of word-aligned length, read as consecutive
/// little-endian 64-bit words.
pub open spec fn le_words(bs: Seq<u8>) -> Seq<u64>
    recommends
        bs.len() % 8 == 0,
{
    Seq::new(bs.len() / 8, |i: int| le_word(bs.subrange(8 * i, 8 * i + 8)))
}

/// Reads the little-endian word at byte offset `base`.
fn load_word(bytes: &[u8], base: usize) -> (w: u64)
    requires
        base + 8 <= bytes@.len(),
    ensures
        w == le_word(bytes@.subrange(base as int, base as int + 8)),
{
    let b0 = bytes[base] as u64;
    let b1 = bytes[base + 1] as u64;
    let b2 = bytes[base + 2] as u64;
    let b3 = bytes[base + 3] as u64;
    let b4 = bytes[base + 4] as u64;
    let b5 = bytes[base + 5] as u64;
    let b6 = bytes[base + 6] as u64;
    let b7 = bytes[base + 7] as u64;
    b0 | (b1 << 8u64) | (b2 << 16u64) | (b3 << 24u64) | (b4 << 32u64) | (b5 << 40u64) | (b6
        << 48u64) | (b7 << 56u64)
}

/// The one error this crate can signal: the byte-oriented entry point was
/// handed data that is not a whole number of 64-bit words. This is a
/// contract violation by the caller, not a runtime data condition; the
/// operation stops without hashing anything.
#[derive(Clone, Copy, Debug, PartialEq, Eq, Structural)]
pub enum HashError {
    UnsupportedInputShape,
}

/// Marker capability: a hash algorithm whose author has vetted it for
/// behavioural cross-checking — deterministic, portable, free of per-run
/// seeding. A registry of interchangeable hash algorithms may restrict
/// itself to implementors of this trait. It adds no behaviour.
pub trait XCheckHasher {
}

/// A JodyHash computation in progress. The entire state is one 64-bit
/// accumulator, owned exclusively by this value; its view is that
/// accumulator, and every method pins the new view down exactly.
#[derive(Debug)]
pub struct JodyHasher {
    acc: u64,
}

impl View for JodyHasher {
    type V = u64;

    closed spec fn view(&self) -> u64 {
        self.acc
    }
}

impl Default for JodyHasher {
    /// A fresh hasher: accumulator zero, no words absorbed yet.
    fn default() -> (h: JodyHasher)
        ensures
            h@ == 0,
    {
        JodyHasher { acc: 0 }
    }
}

impl JodyHasher {
    /// Returns a fresh hasher with accumulator zero. Never fails.
    pub fn new() -> (h: JodyHasher)
        ensures
            h@ == 0,
    {
        Default::default()
    }

    /// Absorbs one 64-bit word through the mixing core. Never fails: every
    /// word is valid, and arithmetic overflow wraps modulo 2^64. The final
    /// digest depends on both the absorbed values and their order.
    pub fn write_u64(&mut self, w: u64)
        ensures
            final(self)@ == mix(old(self)@, w),
    {
        self.acc = mix_word(self.acc, w);
    }

    /// Absorbs a byte slice through the generic byte-oriented entry point.
    /// Only whole 64-bit words are supported: a slice whose length is a
    /// multiple of 8 is absorbed as consecutive little-endian words, and
    /// any other length is rejected with [`HashError::UnsupportedInputShape`]
    /// without touching the accumulator — no padding, no truncation, no
    /// best-effort hashing of a partial word.
    pub fn write(&mut self, bytes: &[u8]) -> (r: Result<(), HashError>)
        ensures
            r is Ok <==> bytes@.len() % 8 == 0,
            bytes@.len() % 8 == 0 ==> final(self)@ == absorb(old(self)@, le_words(bytes@)),
            bytes@.len() % 8 != 0 ==> r == Err::<(), HashError>(HashError::UnsupportedInputShape)
                && final(self)@ == old(self)@,
    {
        let n = bytes.len();
        if n % 8 != 0 {
            return Err(HashError::UnsupportedInputShape);
        }
        let word_count = n / 8;
        let mut j: usize = 0;
        while j < word_count
            invariant
                j <= word_count,
                word_count == bytes@.len() / 8,
                bytes@.len() % 8 == 0,
                bytes@.len() == n,
                self@ == absorb(old(self)@, le_words(bytes@).take(j as int)),
            decreases word_count - j,
        {
            proof {
                lemma_absorb_take_step(old(self)@, le_words(bytes@), j as int);
            }
            let w = load_word(bytes, j * 8);
            self.write_u64(w);
            j = j + 1;
        }
        proof {
            assert(le_words(bytes@).take(word_count as int) =~= le_words(bytes@));
        }
        Ok(())
    }

    /// Reads the digest: the current accumulator value. Takes `&self`, so
    /// finalizing is a pure read — it may be repeated, and interleaved with
    /// further absorptions, each read reflecting all words absorbed so far.
    pub fn finish(&self) -> (d: u64)
        ensures
            d == self@,
    {
        self.acc
    }
}

impl XCheckHasher for JodyHasher {
}

/// Hashes a complete word sequence in one call: a fresh accumulator
/// absorbs the words in order and the finished digest is returned. The
/// result is [`digest`] of the words and of nothing else, so hashing the
/// same sequence again — in this run or any other — yields the same value.
pub fn hash_words(words: &[u64]) -> (d: u64)
    ensures
        d == digest(words@),
{
    let mut h = JodyHasher::new();
    let n = words.len();
    let mut i: usize = 0;
    while i < n
        invariant
            i <= n,
            n == words@.len(),
            h@ == absorb(0, words@.take(i as int)),
        decreases n - i,
    {
        proof {
            lemma_absorb_take_step(0, words@, i as int);
        }
        h.write_u64(words[i]);
        i = i + 1;
    }
    proof {
        assert(words@.take(n as int) =~= words@);
    }
    h.finish()
}

} // verus!
