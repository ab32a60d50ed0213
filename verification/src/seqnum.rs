//! Arithmetic and ordering on the circle of 32-bit TCP sequence numbers.

use vstd::prelude::*;

verus! {

/// The sequence number reached from `from` after `count` further sequence
/// numbers have been consumed, modulo 2^32.
pub open spec fn advance(from: u32, count: int) -> u32 {
    ((from + count) % 0x1_0000_0000) as u32
}

/// How far `to` lies ahead of `from` on the circle: the unique `d` in
/// `0 .. 2^32` with `advance(from, d) == to`.
pub open spec fn distance(from: u32, to: u32) -> int {
    (to - from) % 0x1_0000_0000
}

/// `a` comes strictly before `b`: `b` is ahead of `a` by less than half the
/// circle.
pub open spec fn precedes(a: u32, b: u32) -> bool {
    0 < distance(a, b) < 0x8000_0000
}

/// `a` comes before `b` or is `b`.
pub open spec fn precedes_or_is(a: u32, b: u32) -> bool {
    distance(a, b) < 0x8000_0000
}

/// Moves `from` forward by `count` sequence numbers, wrapping at 2^32.
pub fn advance_by(from: u32, count: usize) -> (to: u32)
    ensures
        to == advance(from, count as int),
{
    let step: u32 = #[verifier::truncate] (count as u32);
    assert(step as u64 == (count as u64) % 0x1_0000_0000u64) by (bit_vector)
        requires
            step == #[verifier::truncate] (count as u32),
    ;
    from.wrapping_add(step)
}

/// Wraparound-aware `<` on sequence numbers.
pub fn wrapping_lt(a: u32, b: u32) -> (r: bool)
    ensures
        r == precedes(a, b),
{
    let ahead: u32 = b.wrapping_sub(a);
    ahead != 0 && ahead < 0x8000_0000
}

/// Wraparound-aware `<=` on sequence numbers.
pub fn wrapping_le(a: u32, b: u32) -> (r: bool)
    ensures
        r == precedes_or_is(a, b),
{
    b.wrapping_sub(a) < 0x8000_0000
}

/// Advancing by `m` and then by `n` is advancing by `m + n`.
pub proof fn lemma_advance_twice(from: u32, m: int, n: int)
    ensures
        advance(advance(from, m), n) == advance(from, m + n),
{
}

/// Advancing by `count` puts the result exactly `count` ahead, as long as
/// `count` is less than a full turn of the circle.
pub proof fn lemma_distance_of_advance(from: u32, count: int)
    requires
        0 <= count < 0x1_0000_0000,
    ensures
        distance(from, advance(from, count)) == count,
{
}

/// A sequence number that advances past 2^32 - 1 continues from 0, and
/// still counts as later than where it started: the order is that of the
/// circle, not of the integers.
pub proof fn lemma_advance_wraps(from: u32, count: int)
    requires
        0 < count < 0x8000_0000,
    ensures
        precedes(from, advance(from, count)),
        !precedes(advance(from, count), from),
        from + count > u32::MAX ==> advance(from, count) == from + count - 0x1_0000_0000,
        from + count > u32::MAX ==> advance(from, count) < from,
        from + count <= u32::MAX ==> advance(from, count) == from + count,
{
}

} // verus!
