//! The mixing core: the pure arithmetic that folds one 64-bit word into a
//! running 64-bit accumulator.
//!
//! The whole hash state is a single `u64` accumulator, initially zero. Each
//! absorbed word updates it through a fixed add/rotate/xor/rotate/xor/add
//! sequence with one constant and one rotation amount. All additions wrap
//! modulo 2^64; wraparound is defined behaviour, never an error. The exact
//! operation order is the specification of the hash: changing it changes
//! every subsequent digest.

use vstd::prelude::*;

verus! {

/// The hash constant, mixed in at both xor-adjacent steps of one absorption.
pub const JODY_HASH_CONSTANT: u64 = 0x1f3d5b79;

/// The rotation amount used by both circular rotations of one absorption.
pub const JODY_HASH_SHIFT: u32 = 14;

/// Wrapping 64-bit addition: the sum modulo 2^64. Overflow is defined
/// behaviour for this hash, never an error.
pub open spec fn wadd(a: u64, b: u64) -> u64 {
    ((a + b) % 0x1_0000_0000_0000_0000) as u64
}

/// Circular left rotation of a 64-bit word by [`JODY_HASH_SHIFT`] bits:
/// bits shifted out at the top re-enter at the bottom.
pub open spec fn rotl(x: u64) -> u64 {
    (x << JODY_HASH_SHIFT) | (x >> ((64 - JODY_HASH_SHIFT) as u32))
}

/// One absorption step: from accumulator `h` and input word `w`, compute
/// the next accumulator value. In order: add `w` and the constant (wrapping),
/// rotate, xor `w`, rotate, xor the constant, add `w` (wrapping).
pub open spec fn mix(h: u64, w: u64) -> u64 {
    let rotated_sum = rotl(wadd(wadd(h, w), JODY_HASH_CONSTANT));
    let scrambled = rotl(rotated_sum ^ w);
    wadd(scrambled ^ JODY_HASH_CONSTANT, w)
}

/// The accumulator after absorbing the words of `ws` in order, starting
/// from accumulator `h`.
pub open spec fn absorb(h: u64, ws: Seq<u64>) -> u64
    decreases ws.len(),
{
    if ws.len() == 0 {
        h
    } else {
        mix(absorb(h, ws.drop_last()), ws.last())
    }
}

/// The digest of a word sequence: the accumulator after absorbing all of
/// `ws` into a fresh (zero) accumulator.
pub open spec fn digest(ws: Seq<u64>) -> u64 {
    absorb(0, ws)
}

/// Absorbing one more word extends the fold by one mixing step: after the
/// first `j + 1` words of `ws`, the accumulator is the previous one mixed
/// with `ws[j]`.
pub proof fn lemma_absorb_take_step(h: u64, ws: Seq<u64>, j: int)
    requires
        0 <= j < ws.len(),
    ensures
        absorb(h, ws.take(j + 1)) == mix(absorb(h, ws.take(j)), ws[j]),
{
    assert(ws.take(j + 1).drop_last() =~= ws.take(j));
}

/// Determinism: the digest is a pure function of the absorbed word
/// sequence and of nothing else — two computations over equal sequences,
/// on any runs or machines, end in equal digests.
pub proof fn lemma_deterministic(ws1: Seq<u64>, ws2: Seq<u64>)
    requires
        ws1 == ws2,
    ensures
        digest(ws1) == digest(ws2),
{
}

/// Incrementality: the digest of a non-empty sequence is one mixing step
/// on the digest of the sequence without its last word. Reading a digest
/// in between absorptions changes nothing, since finalizing is a pure read
/// of the accumulator.
pub proof fn lemma_incremental(ws: Seq<u64>)
    requires
        ws.len() > 0,
    ensures
        digest(ws) == mix(digest(ws.drop_last()), ws.last()),
{
}

/// The digest of a two-word sequence, unfolded to its two mixing steps.
proof fn lemma_digest_pair(a: u64, b: u64)
    ensures
        digest(seq![a, b]) == mix(mix(0, a), b),
{
    let s = seq![a, b];
    assert(s.drop_last() =~= seq![a]);
    assert(seq![a].drop_last() =~= Seq::<u64>::empty());
    assert(absorb(0, Seq::<u64>::empty()) == 0);
    assert(absorb(0, seq![a]) == mix(0, a));
}

/// Order sensitivity: the hash is not commutative — there is a pair of
/// distinct words whose two absorption orders yield different digests.
pub proof fn lemma_order_sensitive()
    ensures
        exists|a: u64, b: u64| a != b && digest(seq![a, b]) != digest(seq![b, a]),
{
    lemma_digest_pair(0u64, 1u64);
    lemma_digest_pair(1u64, 0u64);
    assert(mix(mix(0u64, 0u64), 1u64) != mix(mix(0u64, 1u64), 0u64)) by (bit_vector);
    assert(0u64 != 1u64 && digest(seq![0u64, 1u64]) != digest(seq![1u64, 0u64]));
}

/// `u64::wrapping_add` computes exactly the sum modulo 2^64.
proof fn lemma_wrapping_add_is_wadd(a: u64, b: u64)
    ensures
        a.wrapping_add(b) == wadd(a, b),
{
    if a + b > u64::MAX {
        assert((a + b) % 0x1_0000_0000_0000_0000 == a + b - 0x1_0000_0000_0000_0000);
    } else {
        assert((a + b) % 0x1_0000_0000_0000_0000 == a + b);
    }
}

/// Executable circular left rotation, proved to compute [`rotl`].
fn rotate(x: u64) -> (r: u64)
    ensures
        r == rotl(x),
{
    (x << JODY_HASH_SHIFT) | (x >> (64 - JODY_HASH_SHIFT))
}

/// Executable wrapping addition, proved to compute [`wadd`].
fn wadd_exec(a: u64, b: u64) -> (r: u64)
    ensures
        r == wadd(a, b),
{
    proof {
        lemma_wrapping_add_is_wadd(a, b);
    }
    a.wrapping_add(b)
}

/// Executable mixing step, proved to compute [`mix`]. Never fails: every
/// pair of 64-bit values is a valid input, and overflow wraps.
pub fn mix_word(h: u64, w: u64) -> (r: u64)
    ensures
        r == mix(h, w),
{
    let rotated_sum = rotate(wadd_exec(wadd_exec(h, w), JODY_HASH_CONSTANT));
    let scrambled = rotate(rotated_sum ^ w);
    wadd_exec(scrambled ^ JODY_HASH_CONSTANT, w)
}

} // verus!
