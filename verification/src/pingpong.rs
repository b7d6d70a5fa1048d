//! The shared buffer: two slots, each behind a verified lock, and the atomic
//! state word. The writer and the reader each hold one handle to it.
//!
//! That the two sides never want the same slot at once is proved of the
//! state word's protocol (see `protocol`), not of this buffer. The contracts
//! here fix, for each attempt, the word it saw and the slot and stored word
//! that the protocol decides on that word; that the body then locks that
//! slot and stores that word is what the code does, and no clause states it.
//! What the atomic and the locks hold over time is out of reach of any
//! contract here (see `PingPong`).

use vstd::prelude::*;
use vstd::rwlock::{RwLock, RwLockPredicate};
use std::sync::Arc;
use std::sync::atomic::AtomicU32;
use std::sync::atomic::Ordering;
use crate::protocol::{read_decision, reader_step, write_decision, writer_step, ReadStep, WriteStep};

verus! {

/// Any value may stand in a slot.
pub struct Unconstrained;

impl<T> RwLockPredicate<T> for Unconstrained {
    open spec fn inv(self, v: T) -> bool {
        true
    }
}

/// Wakes one thread sleeping on `atomic`, if any.
///
/// Calls `atomic_wait::wake_one`, which returns nothing: no clause is stated.
#[verifier::external_body]
fn futex_wake_one(atomic: &AtomicU32) {
    atomic_wait::wake_one(atomic)
}

/// How many handles point to the buffer that `arc` points to, at the moment
/// of the call; while `arc` lives it is at least 1.
///
/// Calls `std::sync::Arc::strong_count`. Other threads may take or drop
/// handles at any time, so only the lower bound is stated.
#[verifier::external_body]
fn handle_count<T>(arc: &Arc<T>) -> (n: usize)
    ensures
        n >= 1,
{
    Arc::strong_count(arc)
}

/// The outcome of one attempt to write or to read.
pub enum Attempt<F> {
    /// The callback ran; `seen` is the word that was observed, on which this
    /// side could go on, and `slot` and `stored` are the slot the callback
    /// was given and the word stored, as the protocol decides on `seen`.
    Done { seen: u32, slot: usize, stored: u32 },
    /// The other side was not ready: the callback is handed back unrun, with
    /// the state word that was observed, on which to wait.
    Blocked { callback: F, seen: u32 },
}

/// The buffer that a writer and a reader share.
///
/// Verus sees no value inside a std atomic (vstd gives their loads and
/// stores no result) nor inside the slot locks, and tying them to ghost
/// state would take tracked ghost state, which this crate does not use. So
/// what the buffer holds, what a read returns after a write, and how the two
/// threads' steps interleave are not in any contract here; they are proved
/// of the protocol's words and slots in `protocol`.
///
/// A callback that unwinds leaves its slot's lock taken, and the other
/// side's later attempts on that slot then wait for ever.
pub struct PingPong<T> {
    bufs: [RwLock<T, Unconstrained>; 2],
    sync: AtomicU32,
}

impl<T: Clone> PingPong<T> {
    /// A buffer whose two slots hold `initial` and a clone of it, with the
    /// state word zero: nothing to read, the writer's slot is slot 0.
    pub fn new(initial: T) -> (p: Self) {
        let b1 = initial;
        let b2 = b1.clone();
        PingPong {
            bufs: [RwLock::new(b1, Ghost(Unconstrained)), RwLock::new(b2, Ghost(Unconstrained))],
            sync: AtomicU32::new(0),
        }
    }

    /// Fills `slot` with `f` under its write lock, then stores `publish` in
    /// the state word and wakes the reader.
    fn write_swap_wake<F: FnOnce(&mut T)>(&self, slot: usize, publish: u32, f: F)
        requires
            slot < 2,
            forall|x: &mut T| f.requires((x,)),
        ensures
            exists|x: &mut T| f.ensures((x,), ()),
    {
        let (mut v, handle) = self.bufs[slot].acquire_write();
        f(&mut v);
        handle.release_write(v);
        self.sync.store(publish, Ordering::Release);
        futex_wake_one(&self.sync);
    }

    /// One attempt to write: when the reader has taken the last value, runs
    /// `f` on the writer's slot of the observed word and publishes it, else
    /// hands `f` back with the word it saw.
    fn attempt_write<F: FnOnce(&mut T)>(&self, f: F) -> (r: Attempt<F>)
        requires
            forall|x: &mut T| f.requires((x,)),
        ensures
            r matches Attempt::Blocked { callback, seen } ==> callback == f && write_decision(seen) is Wait,
            r matches Attempt::Done { seen, slot, stored } ==> write_decision(seen) == (WriteStep::Write { slot, publish: stored })
                && exists|x: &mut T| f.ensures((x,), ()),
    {
        let s = self.sync.load(Ordering::Acquire);
        match writer_step(s) {
            WriteStep::Wait => Attempt::Blocked { callback: f, seen: s },
            WriteStep::Write { slot, publish } => {
                self.write_swap_wake(slot, publish, f);
                Attempt::Done { seen: s, slot, stored: publish }
            },
        }
    }

/// Writes unless the reader has not taken the last value yet; tells
    /// whether it wrote.
    fn try_write<F: FnOnce(&mut T)>(&self, f: F) -> (wrote: bool)
        requires
            forall|x: &mut T| f.requires((x,)),
        ensures
            wrote ==> exists|x: &mut T| f.ensures((x,), ()),
    {
        match self.attempt_write(f) {
            Attempt::Done { seen: _, slot: _, stored: _ } => true,
            Attempt::Blocked { callback: _, seen: _ } => false,
        }
    }

    /// Stores `release` in the state word and wakes the writer, then runs
    /// `f` on the value in `slot` under its read lock.
    fn clear_wake_read<F: FnOnce(&T)>(&self, release: u32, slot: usize, f: F)
        requires
            slot < 2,
            forall|x: &T| f.requires((x,)),
        ensures
            exists|x: &T| f.ensures((x,), ()),
    {
        self.sync.store(release, Ordering::Release);
        futex_wake_one(&self.sync);
        let handle = self.bufs[slot].acquire_read();
        f(handle.borrow());
        handle.release_read();
    }

    /// One attempt to read: when a value waits, releases it to the writer
    /// and runs `f` on the reader's slot of the observed word, else hands `f`
    /// back with the word it saw.
    fn attempt_read<F: FnOnce(&T)>(&self, f: F) -> (r: Attempt<F>)
        requires
            forall|x: &T| f.requires((x,)),
        ensures
            r matches Attempt::Blocked { callback, seen } ==> callback == f && read_decision(seen) is Wait,
            r matches Attempt::Done { seen, slot, stored } ==> read_decision(seen) == (ReadStep::Read { release: stored, slot })
                && exists|x: &T| f.ensures((x,), ()),
    {
        let s = self.sync.load(Ordering::Acquire);
        match reader_step(s) {
            ReadStep::Wait => Attempt::Blocked { callback: f, seen: s },
            ReadStep::Read { release, slot } => {
                self.clear_wake_read(release, slot, f);
                Attempt::Done { seen: s, slot, stored: release }
            },
        }
    }

    /// Reads if a value waits; tells whether it read.
    fn try_read<F: FnOnce(&T)>(&self, f: F) -> (read: bool)
        requires
            forall|x: &T| f.requires((x,)),
        ensures
            read ==> exists|x: &T| f.ensures((x,), ()),
    {
        match self.attempt_read(f) {
            Attempt::Done { seen: _, slot: _, stored: _ } => true,
            Attempt::Blocked { callback: _, seen: _ } => false,
        }
    }

}

/// The writing end of a ping-pong buffer.
pub struct PingPongWriter<T> {
    inner: Arc<PingPong<T>>,
}

/// The reading end of a ping-pong buffer.
pub struct PingPongReader<T> {
    inner: Arc<PingPong<T>>,
}

impl<T> PingPongWriter<T> {
    /// Whether this writer and `reader` hold equal buffers. Verus sees an
    /// `Arc` as the value it points to and compares buffers by value, so
    /// this is as near as a contract comes to saying that the two ends share
    /// one buffer; that they share it is what `ping_pong` does, not what
    /// this predicate can tell.
    pub closed spec fn pairs_with(&self, reader: &PingPongReader<T>) -> bool {
        *self.inner == *reader.inner
    }
}

impl<T: Clone> PingPongWriter<T> {
    /// Writes with `f` unless the reader has not taken the last value yet;
    /// tells whether it wrote. It never waits.
    pub fn try_write<F: FnOnce(&mut T)>(&self, f: F) -> (wrote: bool)
        requires
            forall|x: &mut T| f.requires((x,)),
        ensures
            wrote ==> exists|x: &mut T| f.ensures((x,), ()),
    {
        self.inner.try_write(f)
    }

    /// One step of a blocking write: writes with `f` as `try_write` does, or
    /// hands `f` back unrun with the state word it saw, on which the caller
    /// may sleep (see `state_word`).
    pub fn attempt_write<F: FnOnce(&mut T)>(&self, f: F) -> (r: Attempt<F>)
        requires
            forall|x: &mut T| f.requires((x,)),
        ensures
            r matches Attempt::Blocked { callback, seen } ==> callback == f && write_decision(seen) is Wait,
            r matches Attempt::Done { seen, slot, stored } ==> write_decision(seen) == (WriteStep::Write { slot, publish: stored })
                && exists|x: &mut T| f.ensures((x,), ()),
    {
        self.inner.attempt_write(f)
    }

    /// The buffer's state word, for a caller that sleeps on it after a
    /// blocked attempt (the `seen` word of `Attempt::Blocked`). Only the
    /// buffer's own attempts may store into it.
    pub fn state_word(&self) -> &AtomicU32 {
        &self.inner.sync
    }

    /// Whether the reading end still exists, at the moment of the call: the
    /// buffer has another handle than this one. The reader's thread may drop
    /// its end at any time, so no clause states the answer.
    pub fn has_reader(&self) -> bool {
        handle_count(&self.inner) > 1
    }
}

impl<T: Clone> PingPongReader<T> {
    /// Reads with `f` if a value waits; tells whether it read. It never
    /// waits.
    pub fn try_read<F: FnOnce(&T)>(&self, f: F) -> (read: bool)
        requires
            forall|x: &T| f.requires((x,)),
        ensures
            read ==> exists|x: &T| f.ensures((x,), ()),
    {
        self.inner.try_read(f)
    }

    /// One step of a blocking read: reads with `f` as `try_read` does, or
    /// hands `f` back unrun with the state word it saw, on which the caller
    /// may sleep (see `state_word`).
    pub fn attempt_read<F: FnOnce(&T)>(&self, f: F) -> (r: Attempt<F>)
        requires
            forall|x: &T| f.requires((x,)),
        ensures
            r matches Attempt::Blocked { callback, seen } ==> callback == f && read_decision(seen) is Wait,
            r matches Attempt::Done { seen, slot, stored } ==> read_decision(seen) == (ReadStep::Read { release: stored, slot })
                && exists|x: &T| f.ensures((x,), ()),
    {
        self.inner.attempt_read(f)
    }

    /// The buffer's state word, for a caller that sleeps on it after a
    /// blocked attempt (the `seen` word of `Attempt::Blocked`). Only the
    /// buffer's own attempts may store into it.
    pub fn state_word(&self) -> &AtomicU32 {
        &self.inner.sync
    }
}

/// A new buffer whose two slots hold `init` and a clone of it, split into
/// its writing and its reading end.
pub fn ping_pong<T: Clone>(init: T) -> (ends: (PingPongWriter<T>, PingPongReader<T>))
    ensures
        ends.0.pairs_with(&ends.1),
{
    let p1 = Arc::new(PingPong::new(init));
    let p2 = p1.clone();
    let w = PingPongWriter { inner: p1 };
    let r = PingPongReader { inner: p2 };
    (w, r)
}

} // verus!
