//! Per-thread input mode tracking on Windows.
//!
//! Windows keeps the input method state per thread, and the system offers no
//! reliable way to read it. The tracker therefore keeps its own table from
//! thread id to "Korean mode is on", fed by the Hangul key presses the user
//! makes. A thread that was never seen is taken to be in English mode.

use std::collections::HashMap;
use vstd::prelude::*;

verus! {

broadcast use vstd::std_specs::hash::group_hash_axioms;

/// The thread id that stands for "no foreground window".
pub const NO_THREAD: u32 = 0;

/// Whether `tid` is in Korean mode according to the table `m`;
/// a thread absent from the table is in English mode.
pub open spec fn korean_in(m: Map<u32, bool>, tid: u32) -> bool {
    m.contains_key(tid) && m[tid]
}

/// The table after the user pressed the Hangul key while `tid` was in the
/// foreground: the thread's mode flips, and it is entered in the table.
pub open spec fn after_hangul(m: Map<u32, bool>, tid: u32) -> Map<u32, bool> {
    if tid == NO_THREAD {
        m
    } else {
        m.insert(tid, !korean_in(m, tid))
    }
}

/// Whether Escape pressed while `tid` is in the foreground must be followed
/// by a Hangul key press to bring the thread back to English.
pub open spec fn escape_sends(m: Map<u32, bool>, tid: u32) -> bool {
    tid != NO_THREAD && korean_in(m, tid)
}

/// The table after Escape was handled for foreground thread `tid`:
/// the thread is recorded as being in English mode.
pub open spec fn after_escape(m: Map<u32, bool>, tid: u32) -> Map<u32, bool> {
    if tid == NO_THREAD {
        m
    } else {
        m.insert(tid, false)
    }
}

/// Table of the input mode of each thread that has been seen.
pub struct ThreadModes {
    modes: HashMap<u32, bool>,
}

impl View for ThreadModes {
    type V = Map<u32, bool>;

    closed spec fn view(&self) -> Map<u32, bool> {
        self.modes@
    }
}

/// The table every tracker starts from: no thread seen, so every thread is
/// taken to be in English mode.
pub fn states() -> (s: ThreadModes)
    ensures
        s@ == Map::<u32, bool>::empty(),
        s@.dom().finite(),
{
    ThreadModes { modes: HashMap::new() }
}

impl ThreadModes {
    /// Whether `tid` is recorded as being in Korean mode.
    pub fn is_korean(&self, tid: u32) -> (r: bool)
        ensures
            r == korean_in(self@, tid),
    {
        match self.modes.get(&tid) {
            Some(v) => *v,
            None => false,
        }
    }

    /// The user pressed the Hangul key while `tid` owned the foreground window.
    /// With no foreground window (`tid == NO_THREAD`) nothing changes.
    pub fn toggle(&mut self, tid: u32)
        ensures
            final(self)@ == after_hangul(old(self)@, tid),
            final(self)@.dom().finite(),
    {
        if tid != NO_THREAD {
            let cur = self.is_korean(tid);
            self.modes.insert(tid, !cur);
        }
    }

    /// Escape was pressed while `tid` owned the foreground window. Returns
    /// whether a Hangul key press must be sent to switch that thread to English;
    /// afterwards the thread is recorded as being in English mode.
    pub fn escape(&mut self, tid: u32) -> (send: bool)
        ensures
            send == escape_sends(old(self)@, tid),
            final(self)@ == after_escape(old(self)@, tid),
            final(self)@.dom().finite(),
    {
        if tid == NO_THREAD {
            return false;
        }
        let cur = self.is_korean(tid);
        self.modes.insert(tid, false);
        cur
    }
}

/// A user action seen by the tracker: a Hangul key press or an Escape press,
/// each with the thread that owned the foreground window at the time.
#[derive(PartialEq, Eq, Structural)]
pub enum ModeEvent {
    Hangul(u32),
    Escape(u32),
}

/// The table after one event.
pub open spec fn apply_event(m: Map<u32, bool>, e: ModeEvent) -> Map<u32, bool> {
    match e {
        ModeEvent::Hangul(tid) => after_hangul(m, tid),
        ModeEvent::Escape(tid) => after_escape(m, tid),
    }
}

/// The table after the events `es`, in order.
pub open spec fn replay(m: Map<u32, bool>, es: Seq<ModeEvent>) -> Map<u32, bool>
    decreases es.len(),
{
    if es.len() == 0 {
        m
    } else {
        apply_event(replay(m, es.drop_last()), es.last())
    }
}

/// Whether the Hangul key was pressed an odd number of times for `tid`
/// since the last Escape for `tid` (or since the start).
pub open spec fn odd_presses_since_escape(es: Seq<ModeEvent>, tid: u32) -> bool
    decreases es.len(),
{
    if es.len() == 0 {
        false
    } else {
        let before = odd_presses_since_escape(es.drop_last(), tid);
        match es.last() {
            ModeEvent::Hangul(t) => if t == tid { !before } else { before },
            ModeEvent::Escape(t) => if t == tid { false } else { before },
        }
    }
}

/// A thread that was never seen is in English mode, and Escape for it sends nothing.
pub proof fn law_unseen_thread_is_english(tid: u32)
    ensures
        !korean_in(Map::<u32, bool>::empty(), tid),
        !escape_sends(Map::<u32, bool>::empty(), tid),
{
}

/// Two Hangul presses on the same thread give back the mode it had.
pub proof fn law_hangul_twice_restores(m: Map<u32, bool>, tid: u32)
    ensures
        korean_in(after_hangul(after_hangul(m, tid), tid), tid) == korean_in(m, tid),
{
}

/// After Escape a foreground thread is in English mode; Escape sends a
/// Hangul press exactly when that thread was in Korean mode; a second Escape
/// sends nothing and changes nothing.
pub proof fn law_escape_returns_to_english(m: Map<u32, bool>, tid: u32)
    ensures
        tid != NO_THREAD ==> !korean_in(after_escape(m, tid), tid),
        escape_sends(m, tid) == (tid != NO_THREAD && korean_in(m, tid)),
        !escape_sends(after_escape(m, tid), tid),
        after_escape(after_escape(m, tid), tid) == after_escape(m, tid),
{
    assert(after_escape(after_escape(m, tid), tid) =~= after_escape(m, tid));
}

/// Events for one thread leave the mode of every other thread unchanged.
pub proof fn law_threads_are_independent(m: Map<u32, bool>, tid: u32, other: u32)
    requires
        other != tid,
    ensures
        korean_in(after_hangul(m, tid), other) == korean_in(m, other),
        korean_in(after_escape(m, tid), other) == korean_in(m, other),
{
}

/// Without a foreground window neither a Hangul press nor Escape changes the
/// table, and Escape sends nothing.
pub proof fn law_no_foreground_is_ignored(m: Map<u32, bool>)
    ensures
        after_hangul(m, NO_THREAD) == m,
        after_escape(m, NO_THREAD) == m,
        !escape_sends(m, NO_THREAD),
{
}

/// Starting from the initial table, a thread is in Korean mode exactly when
/// the Hangul key was pressed for it an odd number of times since its last
/// Escape; so Escape sends a Hangul press exactly then.
pub proof fn law_mode_is_parity_of_presses(es: Seq<ModeEvent>, tid: u32)
    requires
        tid != NO_THREAD,
    ensures
        korean_in(replay(Map::<u32, bool>::empty(), es), tid) == odd_presses_since_escape(es, tid),
        escape_sends(replay(Map::<u32, bool>::empty(), es), tid) == odd_presses_since_escape(es, tid),
    decreases es.len(),
{
    if es.len() > 0 {
        law_mode_is_parity_of_presses(es.drop_last(), tid);
    }
}

/// The table of a tracker holds finitely many threads.
pub proof fn law_table_is_finite(s: &ThreadModes)
    ensures
        s@.dom().finite(),
{
}

/// Entries are never removed from the table (not even for threads that have
/// exited), and one event adds at most one: the foreground thread, which is
/// never `NO_THREAD`.
pub proof fn law_table_grows_by_at_most_one(m: Map<u32, bool>, e: ModeEvent)
    requires
        m.dom().finite(),
    ensures
        m.dom().subset_of(apply_event(m, e).dom()),
        apply_event(m, e).dom().finite(),
        apply_event(m, e).dom().len() <= m.dom().len() + 1,
        forall|t: u32| #[trigger] apply_event(m, e).dom().contains(t) && !m.dom().contains(t)
            ==> t != NO_THREAD && (e == ModeEvent::Hangul(t) || e == ModeEvent::Escape(t)),
{
}

} // verus!
