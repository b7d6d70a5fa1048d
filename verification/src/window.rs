//! The sliding analysis window over the captured samples: each spectrum is
//! taken over the oldest `in_width` queued samples, and the next one starts
//! half a window later, so that consecutive windows overlap by half.

use vstd::prelude::*;
use std::collections::VecDeque;

verus! {

/// How far the window moves between two spectra: half its width.
pub open spec fn hop(in_width: nat) -> nat {
    in_width / 2
}

/// The hop is half the window, rounded down: twice the hop is the window's
/// width, or one less when the width is odd.
pub proof fn lemma_hop_is_half(in_width: nat)
    ensures
        2 * hop(in_width) == in_width || 2 * hop(in_width) + 1 == in_width,
{
}

/// Whether a whole window of samples is queued, so that a spectrum can be
/// taken over the front of `queue`.
pub fn window_ready<T>(queue: &VecDeque<T>, in_width: usize) -> (ready: bool)
    ensures
        ready == (queue@.len() >= in_width),
{
    queue.len() >= in_width
}

/// Moves the window on after a spectrum was taken over the front of
/// `queue`: the oldest half window of samples leaves the queue. At least
/// that half window must be queued.
pub fn advance_window<T>(queue: &mut VecDeque<T>, in_width: usize)
    requires
        old(queue)@.len() >= hop(in_width as nat),
    ensures
        final(queue)@ == old(queue)@.skip(hop(in_width as nat) as int),
        final(queue)@ == old(queue)@.skip((in_width / 2) as int),
        final(queue)@.len() == old(queue)@.len() - in_width / 2,
        forall|k: int| 0 <= k < final(queue)@.len() ==> #[trigger] final(queue)@[k] == old(queue)@[k + in_width / 2],
{
    let half = in_width / 2;
    let mut i: usize = 0;
    while i < half
        invariant
            half == hop(in_width as nat),
            half <= old(queue)@.len(),
            i <= half,
            queue@ == old(queue)@.skip(i as int),
        decreases half - i,
    {
        let _ = queue.pop_front();
        i = i + 1;
    }
}

/// Two consecutive windows overlap by half: the samples of the second
/// window's first half are those of the first window's second half.
pub proof fn lemma_windows_overlap<T>(queue: Seq<T>, in_width: nat)
    requires
        queue.len() >= in_width + hop(in_width),
    ensures
        queue.skip(hop(in_width) as int).take((in_width - hop(in_width)) as int) == queue.subrange(
            hop(in_width) as int,
            in_width as int,
        ),
{
    assert(queue.skip(hop(in_width) as int).take((in_width - hop(in_width)) as int) =~= queue.subrange(
        hop(in_width) as int,
        in_width as int,
    ));
}

} // verus!
