//! The decisions of the writer and of the reader, taken on the state word
//! they observed, and the laws that make the two sides a one-place mailbox
//! that never lets them touch the same slot at once.

use vstd::prelude::*;
use crate::state::{
    clear_ready, is_ready, lemma_word_parts, read_index, reader_slot, ready, set_ready, swap_indexes,
    upper_bits, write_index, writer_slot,
};

verus! {

/// What the writer does on the state word it observed.
#[derive(Debug, PartialEq, Eq)]
pub enum WriteStep {
    /// A written value still waits for the reader: the writer must wait.
    Wait,
    /// Fill `slot`, then store `publish` and wake the reader.
    Write { slot: usize, publish: u32 },
}

/// What the reader does on the state word it observed.
#[derive(Debug, PartialEq, Eq)]
pub enum ReadStep {
    /// Nothing was written since the last read: the reader must wait.
    Wait,
    /// Store `release` and wake the writer, then read `slot`.
    Read { release: u32, slot: usize },
}

/// The word made of a writer's slot, a ready flag and upper bits.
pub open spec fn word(slot: int, is_ready: bool, upper: int) -> u32 {
    (upper * 4 + (if is_ready { 2int } else { 0int }) + slot) as u32
}

/// The word the writer stores after filling its slot of `s`: the slots are
/// exchanged and the ready flag is set.
pub open spec fn published(s: u32) -> u32 {
    word(reader_slot(s), true, upper_bits(s))
}

/// The word the reader stores when it takes the value of `s`: the ready
/// flag is cleared, the slots stay.
pub open spec fn released(s: u32) -> u32 {
    word(writer_slot(s), false, upper_bits(s))
}

/// The writer's decision on `s`.
pub open spec fn write_decision(s: u32) -> WriteStep {
    if ready(s) {
        WriteStep::Wait
    } else {
        WriteStep::Write { slot: writer_slot(s) as usize, publish: published(s) }
    }
}

/// The reader's decision on `s`.
pub open spec fn read_decision(s: u32) -> ReadStep {
    if ready(s) {
        ReadStep::Read { release: released(s), slot: reader_slot(s) as usize }
    } else {
        ReadStep::Wait
    }
}

/// The parts of a word built by `word` are the parts it was built from.
pub proof fn lemma_word_has_parts(slot: int, is_ready: bool, upper: int)
    requires
        0 <= slot < 2,
        0 <= upper < 0x4000_0000,
    ensures
        writer_slot(word(slot, is_ready, upper)) == slot,
        ready(word(slot, is_ready, upper)) == is_ready,
        upper_bits(word(slot, is_ready, upper)) == upper,
{
    let k: int = upper * 4 + (if is_ready { 2int } else { 0int }) + slot;
    assert(0 <= k < 0x1_0000_0000);
    assert(word(slot, is_ready, upper) as int == k);
}

/// The upper bits of any word fit below bit 30.
pub proof fn lemma_upper_bits_bound(s: u32)
    ensures
        0 <= upper_bits(s) < 0x4000_0000,
{
}

/// The writer's decision on `s`, computed.
pub fn writer_step(s: u32) -> (r: WriteStep)
    ensures
        r == write_decision(s),
{
    if is_ready(s) {
        WriteStep::Wait
    } else {
        let t = set_ready(swap_indexes(s));
        proof {
            lemma_upper_bits_bound(s);
            lemma_word_has_parts(reader_slot(s), true, upper_bits(s));
            lemma_word_parts(t, published(s));
        }
        WriteStep::Write { slot: write_index(s), publish: t }
    }
}

/// The reader's decision on `s`, computed.
pub fn reader_step(s: u32) -> (r: ReadStep)
    ensures
        r == read_decision(s),
{
    if is_ready(s) {
        let t = clear_ready(s);
        proof {
            lemma_upper_bits_bound(s);
            lemma_word_has_parts(writer_slot(s), false, upper_bits(s));
            lemma_word_parts(t, released(s));
        }
        ReadStep::Read { release: t, slot: read_index(s) }
    } else {
        ReadStep::Wait
    }
}

/// The parts of the word the writer publishes on `s`.
pub proof fn lemma_published_parts(s: u32)
    ensures
        writer_slot(published(s)) == reader_slot(s),
        reader_slot(published(s)) == writer_slot(s),
        ready(published(s)),
        upper_bits(published(s)) == upper_bits(s),
{
    lemma_upper_bits_bound(s);
    lemma_word_has_parts(reader_slot(s), true, upper_bits(s));
}

/// The parts of the word the reader releases on `s`.
pub proof fn lemma_released_parts(s: u32)
    ensures
        writer_slot(released(s)) == writer_slot(s),
        reader_slot(released(s)) == reader_slot(s),
        !ready(released(s)),
        upper_bits(released(s)) == upper_bits(s),
{
    lemma_upper_bits_bound(s);
    lemma_word_has_parts(writer_slot(s), false, upper_bits(s));
}

/// The word `s` and the two slots hold the content of a one-place mailbox:
/// a value waits exactly when the ready flag is set, and the waiting value
/// is the one in the reader's slot.
pub open spec fn holds<T>(s: u32, slots: Seq<T>, pending: Option<T>) -> bool {
    &&& slots.len() == 2
    &&& (ready(s) <==> pending is Some)
    &&& (pending matches Some(v) ==> slots[reader_slot(s)] == v)
}

/// A new buffer, whose word is zero, holds an empty mailbox, and its writer
/// may fill slot 0 at once.
pub proof fn lemma_initial_state<T>(slots: Seq<T>)
    requires
        slots.len() == 2,
    ensures
        holds(0, slots, None),
        write_decision(0) == (WriteStep::Write { slot: 0, publish: published(0) }),
        read_decision(0) == ReadStep::Wait,
{
}

/// Writing refines putting into the mailbox: the writer waits exactly when
/// a value is still pending; otherwise, after it fills its slot with `v` and
/// publishes, the buffer holds `v` as the pending value.
pub proof fn lemma_write_refines<T>(s: u32, slots: Seq<T>, pending: Option<T>, v: T)
    requires
        holds(s, slots, pending),
    ensures
        match write_decision(s) {
            WriteStep::Wait => pending is Some,
            WriteStep::Write { slot, publish } => {
                &&& pending is None
                &&& holds(publish, slots.update(slot as int, v), Some(v))
            },
        },
{
    lemma_published_parts(s);
}

/// Reading refines taking from the mailbox: the reader waits exactly when no
/// value is pending; otherwise it reads the pending value from its slot, and
/// after it releases, the mailbox is empty.
pub proof fn lemma_read_refines<T>(s: u32, slots: Seq<T>, pending: Option<T>)
    requires
        holds(s, slots, pending),
    ensures
        match read_decision(s) {
            ReadStep::Wait => pending is None,
            ReadStep::Read { release, slot } => {
                &&& slot < 2
                &&& pending == Some(slots[slot as int])
                &&& holds(release, slots, None)
            },
        },
{
    lemma_released_parts(s);
}

/// A read gives back what the last write wrote: when the writer fills its
/// slot with `v` and publishes, the reader's next decision reads that very
/// slot, and finds `v` there.
pub proof fn lemma_read_returns_last_write<T>(s: u32, slots: Seq<T>, v: T)
    requires
        holds(s, slots, None),
    ensures
        write_decision(s) matches WriteStep::Write { slot: w, publish: p } && read_decision(p)
            matches ReadStep::Read { release: _, slot: r } && r == w && slots.update(
            w as int,
            v,
        )[r as int] == v,
{
    lemma_published_parts(s);
}

/// On every word exactly one side may go on: the writer must wait exactly
/// when the reader may read.
pub proof fn lemma_one_side_proceeds(s: u32)
    ensures
        (write_decision(s) is Wait) <==> (read_decision(s) is Read),
{
}

/// While the reader reads its slot the writer keeps out of it: after the
/// reader releases `s`, the writer fills the other slot, and once it has
/// published it must wait until the reader releases again.
pub proof fn lemma_writer_avoids_reader_slot(s: u32)
    requires
        read_decision(s) is Read,
    ensures
        read_decision(s) matches ReadStep::Read { release, slot: r } && write_decision(release)
            matches WriteStep::Write { slot: w, publish: p } && w != r && write_decision(p) is Wait,
{
    lemma_released_parts(s);
    lemma_published_parts(released(s));
}

/// A write followed by a read exchanges the two slots and leaves the ready
/// flag clear, whatever the upper bits hold.
pub proof fn lemma_round_trip(s: u32)
    requires
        !ready(s),
    ensures
        writer_slot(released(published(s))) == reader_slot(s),
        !ready(released(published(s))),
        upper_bits(released(published(s))) == upper_bits(s),
{
    lemma_published_parts(s);
    lemma_released_parts(published(s));
}

/// The state word moves from `p` to `s` in one step: the writer publishes
/// on `p`, or the reader releases it.
pub open spec fn step(p: u32, s: u32) -> bool {
    ||| (write_decision(p) matches WriteStep::Write { slot: _, publish } && publish == s)
    ||| (read_decision(p) matches ReadStep::Read { release, slot: _ } && release == s)
}

/// `words` is a run of the protocol: it starts from a new buffer's word,
/// zero, and each word follows from the one before it in one step.
pub open spec fn is_run(words: Seq<u32>) -> bool {
    &&& words.len() > 0
    &&& words[0] == 0
    &&& forall|i: int| 0 <= i < words.len() - 1 ==> #[trigger] step(words[i], words[i + 1])
}

/// Every word of a run uses only the two protocol bits: its upper bits are
/// zero, so it is below 4.
pub proof fn lemma_run_words_use_two_bits(words: Seq<u32>, i: int)
    requires
        is_run(words),
        0 <= i < words.len(),
    ensures
        upper_bits(words[i]) == 0,
        words[i] < 4,
    decreases i,
{
    if i > 0 {
        lemma_run_words_use_two_bits(words, i - 1);
        assert(step(words[i - 1], words[(i - 1) + 1]));
        lemma_published_parts(words[i - 1]);
        lemma_released_parts(words[i - 1]);
    }
}

} // verus!
