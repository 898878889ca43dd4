//! Filling, clearing and checking typed buffers.
//!
//! A buffer is a slice of elements. The test pattern puts the low eight bits
//! of its index into each element, so the content of a correctly copied
//! buffer is known from its length alone. Up to 256 elements the pattern
//! never repeats; in longer buffers it starts over every 256 elements.

use vstd::prelude::*;
use crate::element::Element;

verus! {

/// The value the pattern puts at index `i`: the low eight bits of `i`.
pub open spec fn pattern_byte(i: int) -> u32 {
    (i % 0x100) as u32
}

/// The zero of an element type.
pub open spec fn zero_of<T: Element>() -> T {
    T::spec_narrow(0)
}

/// A buffer of `len` zeros.
pub open spec fn zeros<T: Element>(len: nat) -> Seq<T> {
    Seq::new(len, |i: int| zero_of::<T>())
}

/// A buffer of `len` elements holding the pattern.
pub open spec fn pattern<T: Element>(len: nat) -> Seq<T> {
    Seq::new(len, |i: int| T::spec_narrow(pattern_byte(i)))
}

/// Whether a buffer holds the pattern in every element.
pub open spec fn holds_pattern<T: Element>(buf: Seq<T>) -> bool {
    buf == pattern::<T>(buf.len())
}

/// Overwrites every element with zero.
pub fn clear<T: Element>(buf: &mut [T])
    ensures
        final(buf)@ == zeros::<T>(old(buf)@.len()),
{
    let n: usize = buf.len();
    let mut i: usize = 0;
    while i < n
        invariant
            i <= n,
            buf@.len() == n,
            forall|j: int| 0 <= j < i ==> buf@[j] == zero_of::<T>(),
        decreases n - i,
    {
        buf[i] = T::narrow(0);
        i += 1;
    }
    assert(buf@ =~= zeros::<T>(n as nat));
}

/// Overwrites the element at each index with the low eight bits of the index.
pub fn set<T: Element>(buf: &mut [T])
    ensures
        final(buf)@ == pattern::<T>(old(buf)@.len()),
        holds_pattern(final(buf)@),
{
    let n: usize = buf.len();
    let mut i: usize = 0;
    while i < n
        invariant
            i <= n,
            buf@.len() == n,
            forall|j: int| 0 <= j < i ==> buf@[j] == T::spec_narrow(pattern_byte(j)),
        decreases n - i,
    {
        let low: u32 = (i % 0x100) as u32;
        buf[i] = T::narrow(low);
        i += 1;
    }
    assert(buf@ =~= pattern::<T>(n as nat));
}

/// Checks every element against the pattern. Returns `true` if and only if
/// all of them match; a mismatch is reported, never acted on.
pub fn validate<T: Element>(buf: &[T]) -> (ok: bool)
    ensures
        ok == holds_pattern(buf@),
{
    let n: usize = buf.len();
    let mut i: usize = 0;
    while i < n
        invariant
            i <= n,
            buf@.len() == n,
            forall|j: int| 0 <= j < i ==> buf@[j] == T::spec_narrow(pattern_byte(j)),
        decreases n - i,
    {
        let low: u32 = (i % 0x100) as u32;
        let expected: T = T::narrow(low);
        if buf[i].widen() != expected.widen() {
            assert(buf@[i as int] != pattern::<T>(n as nat)[i as int]);
            return false;
        }
        proof {
            T::lemma_value_injective(buf@[i as int], expected);
        }
        i += 1;
    }
    assert(buf@ =~= pattern::<T>(n as nat));
    true
}

/// Whatever its length, a buffer filled by [`set`] passes [`validate`].
pub proof fn lemma_pattern_validates<T: Element>(len: nat)
    ensures
        holds_pattern(pattern::<T>(len)),
{
}

/// Within the first 256 elements no two hold the same pattern value, so a
/// buffer of up to 256 elements that passes [`validate`] has every element
/// in its own place.
pub proof fn lemma_pattern_distinct_up_to_256<T: Element>(len: nat, i: int, j: int)
    requires
        len <= 256,
        0 <= i < j < len,
    ensures
        pattern::<T>(len)[i] != pattern::<T>(len)[j],
{
    T::lemma_narrow_value(pattern_byte(i));
    T::lemma_narrow_value(pattern_byte(j));
}

/// The pattern starts over every 256 elements.
pub proof fn lemma_pattern_repeats_after_256<T: Element>(len: nat, i: int)
    requires
        0 <= i,
        i + 256 < len,
    ensures
        pattern::<T>(len)[i] == pattern::<T>(len)[i + 256],
{
}

/// In a cleared buffer every element has the value zero.
pub proof fn lemma_zeros_have_value_zero<T: Element>(len: nat, i: int)
    requires
        0 <= i < len,
    ensures
        zeros::<T>(len)[i].value() == 0,
{
    T::lemma_narrow_value(0);
}

} // verus!
