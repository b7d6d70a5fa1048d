//! The history of spectrum rows that the display keeps: the newest row first,
//! at most as many rows as the window is tall.

use vstd::prelude::*;
use std::collections::VecDeque;

verus! {

/// The history `rows` after `row` arrived, for a window `height` rows tall:
/// `row` goes in front, and when the history was full its oldest row falls
/// out of the back.
pub open spec fn pushed<T>(rows: Seq<T>, row: T, height: nat) -> Seq<T> {
    seq![row] + (if rows.len() == height && height > 0 {
        rows.drop_last()
    } else {
        rows
    })
}

/// The history after every row of `stream` arrived in turn, from empty.
pub open spec fn history<T>(stream: Seq<T>, height: nat) -> Seq<T>
    decreases stream.len(),
{
    if stream.len() == 0 {
        Seq::empty()
    } else {
        pushed(history(stream.drop_last(), height), stream.last(), height)
    }
}

/// Puts `row` in front of the history, dropping the oldest row first when
/// the history already holds `height` rows.
pub fn push_row<T>(rows: &mut VecDeque<T>, row: T, height: usize)
    requires
        old(rows)@.len() <= height,
    ensures
        final(rows)@ == pushed(old(rows)@, row, height as nat),
{
    if rows.len() == height {
        let _ = rows.pop_back();
    }
    rows.push_front(row);
}

/// A history fed row after row holds the newest rows, newest first, and no
/// more of them than the window is tall: its length is the smaller of the
/// number of rows that arrived and `height`, and its `i`-th row is the
/// `i`-th most recent arrival.
pub proof fn lemma_history_keeps_newest<T>(stream: Seq<T>, height: nat)
    requires
        height > 0,
    ensures
        history(stream, height).len() == if stream.len() < height {
            stream.len()
        } else {
            height
        },
        forall|i: int|
            0 <= i < history(stream, height).len() ==> #[trigger] history(stream, height)[i]
                == stream[stream.len() - 1 - i],
    decreases stream.len(),
{
    if stream.len() > 0 {
        let prev = stream.drop_last();
        lemma_history_keeps_newest(prev, height);
        let h = history(stream, height);
        let hp = history(prev, height);
        assert forall|i: int| 0 <= i < h.len() implies #[trigger] h[i] == stream[stream.len() - 1
            - i] by {
            if i > 0 {
                assert(h[i] == hp[i - 1]);
                assert(prev[prev.len() - 1 - (i - 1)] == stream[stream.len() - 1 - i]);
            }
        }
    }
}

} // verus!
