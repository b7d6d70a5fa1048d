//! The state word of a ping-pong buffer.
//!
//! Bit `WRITE_INDEX_BIT` names the slot the writer fills next; the other slot
//! is the one the reader reads. Bit `READY_BIT` is set while a written value
//! waits for the reader. No other bit is ever read or changed.

use vstd::prelude::*;

verus! {

/// Position of the bit that selects the writer's slot.
pub const WRITE_INDEX_BIT: u32 = 0;

/// Position of the bit that says a written value waits for the reader.
pub const READY_BIT: u32 = 1;

/// The slot (0 or 1) that the writer fills next.
pub open spec fn writer_slot(s: u32) -> int {
    s as int % 2
}

/// The slot (0 or 1) that the reader reads.
pub open spec fn reader_slot(s: u32) -> int {
    1 - writer_slot(s)
}

/// Whether a written value waits for the reader.
pub open spec fn ready(s: u32) -> bool {
    (s as int / 2) % 2 == 1
}

/// The bits of the word above the two that the protocol uses.
pub open spec fn upper_bits(s: u32) -> int {
    s as int / 4
}

/// Two words are equal exactly when they agree on the writer's slot, on the
/// ready flag and on the upper bits: the three parts determine the word.
pub proof fn lemma_word_parts(a: u32, b: u32)
    requires
        writer_slot(a) == writer_slot(b),
        ready(a) == ready(b),
        upper_bits(a) == upper_bits(b),
    ensures
        a == b,
{
}

/// The writer's slot of `s`.
pub fn write_index(s: u32) -> (i: usize)
    ensures
        i == writer_slot(s),
        i < 2,
{
    let b: u32 = (s >> WRITE_INDEX_BIT) & 1;
    assert(b == s % 2 && b < 2) by (bit_vector)
        requires b == (s >> 0u32) & 1u32;
    b as usize
}

/// The reader's slot of `s`: always the other one.
pub fn read_index(s: u32) -> (i: usize)
    ensures
        i == reader_slot(s),
        i < 2,
{
    let b: u32 = (s >> WRITE_INDEX_BIT) & 1;
    assert(b == s % 2 && b < 2) by (bit_vector)
        requires b == (s >> 0u32) & 1u32;
    (b as usize + 1) % 2
}

/// Exchanges the two slots: the writer's slot becomes the reader's and the
/// reader's the writer's; the ready flag and the upper bits stay.
pub fn swap_indexes(s: u32) -> (t: u32)
    ensures
        writer_slot(t) == reader_slot(s),
        ready(t) == ready(s),
        upper_bits(t) == upper_bits(s),
{
    let i: u32 = (s >> WRITE_INDEX_BIT) & 1;
    assert(i < 2) by (bit_vector)
        requires i == (s >> 0u32) & 1u32;
    let ni: u32 = (i + 1) % 2;
    let t: u32 = (s & !(1u32 << WRITE_INDEX_BIT)) | (ni << WRITE_INDEX_BIT);
    assert(t % 2 + s % 2 == 1 && (t / 2) % 2 == (s / 2) % 2 && t / 4 == s / 4) by (bit_vector)
        requires
            i == (s >> 0u32) & 1u32,
            ni < 2,
            ni != i,
            t == (s & !(1u32 << 0u32)) | (ni << 0u32),
    ;
    t
}

/// Whether `s` has the ready flag set.
pub fn is_ready(s: u32) -> (r: bool)
    ensures
        r == ready(s),
{
    let r: bool = s & (1u32 << READY_BIT) != 0;
    assert(r == ((s / 2) % 2 == 1)) by (bit_vector)
        requires r == (s & (1u32 << 1u32) != 0);
    r
}

/// Sets the ready flag; the slots and the upper bits stay.
pub fn set_ready(s: u32) -> (t: u32)
    ensures
        writer_slot(t) == writer_slot(s),
        ready(t),
        upper_bits(t) == upper_bits(s),
{
    let t: u32 = s | (1u32 << READY_BIT);
    assert(t % 2 == s % 2 && (t / 2) % 2 == 1 && t / 4 == s / 4) by (bit_vector)
        requires t == s | (1u32 << 1u32);
    t
}

/// Clears the ready flag; the slots and the upper bits stay.
pub fn clear_ready(s: u32) -> (t: u32)
    ensures
        writer_slot(t) == writer_slot(s),
        !ready(t),
        upper_bits(t) == upper_bits(s),
{
    let t: u32 = s & !(1u32 << READY_BIT);
    assert(t % 2 == s % 2 && (t / 2) % 2 == 0 && t / 4 == s / 4) by (bit_vector)
        requires t == s & !(1u32 << 1u32);
    t
}

} // verus!
