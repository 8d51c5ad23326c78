//! A stopwatch that accumulates caller-supplied time increments, with
//! explicit pause control.
//!
//! The mathematical model of a [`Stopwatch`] is a [`StopwatchView`]: the
//! accumulated length in nanoseconds and the paused flag. Every operation
//! states in that model exactly how it moves the stopwatch, and the general
//! laws of the type — accumulation adds up to saturation, a paused stopwatch
//! ignores any number of ticks, pausing and unpausing leaves no trace — are
//! proved below over the same model.

use vstd::prelude::*;

verus! {

use crate::duration::{Duration, max_nanos, sat_add};

/// The mathematical state of a [`Stopwatch`]: the accumulated time in
/// nanoseconds and the paused flag.
pub struct StopwatchView {
    pub elapsed: int,
    pub paused: bool,
}

/// The state after one tick of `delta` nanoseconds: an unpaused stopwatch
/// accumulates with saturation, a paused one is unchanged.
pub open spec fn tick_view(s: StopwatchView, delta: int) -> StopwatchView {
    StopwatchView {
        elapsed: if s.paused {
            s.elapsed
        } else {
            sat_add(s.elapsed, delta)
        },
        paused: s.paused,
    }
}

/// The state after ticking once for each delta of `deltas`, in order.
pub open spec fn ticks_view(s: StopwatchView, deltas: Seq<int>) -> StopwatchView
    decreases deltas.len(),
{
    if deltas.len() == 0 {
        s
    } else {
        ticks_view(tick_view(s, deltas[0]), deltas.drop_first())
    }
}

/// A stopwatch that tracks elapsed time under caller-driven ticking.
///
/// The owner calls [`Stopwatch::tick`] once per update cycle with the time
/// that passed since the previous one; while paused, ticks are accepted but
/// leave the accumulated time untouched.
#[derive(Clone, Debug, PartialEq, Eq, Structural)]
pub struct Stopwatch {
    elapsed: Duration,
    is_paused: bool,
}

impl View for Stopwatch {
    type V = StopwatchView;

    closed spec fn view(&self) -> StopwatchView {
        StopwatchView { elapsed: self.elapsed@, paused: self.is_paused }
    }
}

impl Stopwatch {
    /// A new unpaused stopwatch with no elapsed time.
    pub fn new() -> (s: Stopwatch)
        ensures
            s@.elapsed == 0,
            !s@.paused,
    {
        Stopwatch { elapsed: Duration::default(), is_paused: false }
    }

    /// The time accumulated since the last reset, exactly as stored.
    pub fn elapsed(&self) -> (r: Duration)
        ensures
            r@ == self@.elapsed,
    {
        self.elapsed
    }

    /// Overwrites the accumulated time, whether or not the stopwatch is
    /// paused.
    pub fn set_elapsed(&mut self, time: Duration)
        ensures
            final(self)@.elapsed == time@,
            final(self)@.paused == old(self)@.paused,
    {
        self.elapsed = time;
    }

    /// Advances the stopwatch by `delta`: an unpaused stopwatch accumulates
    /// with saturation at the largest representable duration, a paused one
    /// is unchanged. Returns a reference to the stopwatch after the tick,
    /// for chained inspection.
    pub fn tick(&mut self, delta: Duration) -> (r: &Self)
        ensures
            final(self)@ == tick_view(old(self)@, delta@),
            *r == *final(self),
    {
        if !self.is_paused() {
            self.elapsed = self.elapsed.saturating_add(delta);
        }
        self
    }

    /// Pauses the stopwatch: further ticks will leave the accumulated time
    /// untouched. Idempotent; the accumulated time is kept.
    pub fn pause(&mut self)
        ensures
            final(self)@.paused,
            final(self)@.elapsed == old(self)@.elapsed,
    {
        self.is_paused = true;
    }

    /// Unpauses the stopwatch: further ticks accumulate again. Idempotent;
    /// the accumulated time is kept.
    pub fn unpause(&mut self)
        ensures
            !final(self)@.paused,
            final(self)@.elapsed == old(self)@.elapsed,
    {
        self.is_paused = false;
    }

    /// Whether the stopwatch is paused.
    pub fn is_paused(&self) -> (r: bool)
        ensures
            r == self@.paused,
    {
        self.is_paused
    }

    /// Sets the accumulated time back to zero; the paused flag is left as
    /// it was.
    pub fn reset(&mut self)
        ensures
            final(self)@.elapsed == 0,
            final(self)@.paused == old(self)@.paused,
    {
        self.elapsed = Duration::default();
    }
}

impl Default for Stopwatch {
    /// Same as [`Stopwatch::new`]: unpaused, no elapsed time.
    fn default() -> (s: Stopwatch)
        ensures
            s@.elapsed == 0,
            !s@.paused,
    {
        Stopwatch::new()
    }
}

/// Ticking an unpaused stopwatch by `d1` and then by `d2` accumulates like
/// ordinary addition: the result is `d1 + d2` on top of what had elapsed,
/// clamped at the largest representable duration.
pub proof fn lemma_unpaused_ticks_accumulate(s: StopwatchView, d1: int, d2: int)
    requires
        !s.paused,
        0 <= s.elapsed,
        0 <= d1,
        0 <= d2,
    ensures
        tick_view(tick_view(s, d1), d2).elapsed == sat_add(s.elapsed, d1 + d2),
        s.elapsed + d1 + d2 <= max_nanos() ==> tick_view(tick_view(s, d1), d2).elapsed == s.elapsed
            + d1 + d2,
{
}

/// Ticking a paused stopwatch any number of times leaves it exactly as it
/// was.
pub proof fn lemma_paused_ticks_unchanged(s: StopwatchView, deltas: Seq<int>)
    requires
        s.paused,
    ensures
        ticks_view(s, deltas) == s,
    decreases deltas.len(),
{
    if deltas.len() != 0 {
        assert(tick_view(s, deltas[0]) == s);
        lemma_paused_ticks_unchanged(s, deltas.drop_first());
    }
}

/// The state after a pause: the paused flag set, the elapsed time kept.
pub open spec fn pause_view(s: StopwatchView) -> StopwatchView {
    StopwatchView { elapsed: s.elapsed, paused: true }
}

/// The state after an unpause: the paused flag cleared, the elapsed time
/// kept.
pub open spec fn unpause_view(s: StopwatchView) -> StopwatchView {
    StopwatchView { elapsed: s.elapsed, paused: false }
}

/// A pause followed by an unpause leaves a stopwatch that accumulates any
/// further deltas exactly as a stopwatch with the same elapsed time that
/// was never paused.
pub proof fn lemma_pause_unpause_restores(s: StopwatchView, deltas: Seq<int>)
    requires
        !s.paused,
    ensures
        ticks_view(unpause_view(pause_view(s)), deltas) == ticks_view(s, deltas),
{
    assert(unpause_view(pause_view(s)) == s);
}

/// A tick so large that the accumulation would pass the largest
/// representable duration leaves exactly that largest duration, never a
/// wrapped or smaller value.
pub proof fn lemma_tick_saturates(s: StopwatchView, delta: int)
    requires
        !s.paused,
        s.elapsed + delta > max_nanos(),
    ensures
        tick_view(s, delta).elapsed == max_nanos(),
{
}

} // verus!
