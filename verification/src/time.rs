//! Countdown timers that run once or repeat.
use vstd::prelude::*;

verus! {

/// The largest span a `std::time::Duration` can hold, in nanoseconds:
/// `u64::MAX` whole seconds plus 999_999_999 nanoseconds.
pub const DURATION_MAX_NANOS: u128 = 18446744073709551615999999999u128;

/// Whether a timer stops at its duration or starts over.
#[derive(Clone, Copy, Debug, PartialEq, Eq, Structural)]
pub enum TimerType {
    Once,
    Repeat,
}

impl Default for TimerType {
    fn default() -> (r: Self)
        ensures
            r == TimerType::Once,
    {
        TimerType::Once
    }
}

/// A timer over spans of time counted in nanoseconds.
///
/// `duration_nanos` is the span after which the timer finishes, and
/// `elapsed_nanos` the time accumulated since the last start.
#[derive(Clone, Copy, Debug)]
pub struct Timer {
    pub timer_type: TimerType,
    pub duration_nanos: u128,
    pub elapsed_nanos: u128,
    pub is_finished: bool,
}

impl Timer {
    /// Both spans fit in a `std::time::Duration`.
    pub open spec fn wf(self) -> bool {
        &&& self.duration_nanos <= DURATION_MAX_NANOS
        &&& self.elapsed_nanos <= DURATION_MAX_NANOS
    }

    /// The timer after `delta` nanoseconds have passed.
    pub open spec fn ticked(self, delta: int) -> Timer {
        let total: int = self.elapsed_nanos + delta;
        if total >= self.duration_nanos {
            match self.timer_type {
                TimerType::Once => Timer {
                    elapsed_nanos: self.duration_nanos,
                    is_finished: true,
                    ..self
                },
                TimerType::Repeat => Timer { elapsed_nanos: 0, is_finished: true, ..self },
            }
        } else {
            Timer { elapsed_nanos: total as u128, is_finished: false, ..self }
        }
    }

    /// Creates a timer of the given type and duration, with nothing elapsed.
    pub fn new(timer_type: TimerType, duration_nanos: u128) -> (r: Self)
        requires
            duration_nanos <= DURATION_MAX_NANOS,
        ensures
            r.wf(),
            r.timer_type == timer_type,
            r.duration_nanos == duration_nanos,
            r.elapsed_nanos == 0,
            !r.is_finished,
    {
        Timer { timer_type, duration_nanos, elapsed_nanos: 0, is_finished: false }
    }

    /// Lets `delta_nanos` nanoseconds pass.
    ///
    /// The timer finishes when the accumulated time reaches its duration: a
    /// `Once` timer then holds at its duration, a `Repeat` timer starts over
    /// from zero. On any other tick `is_finished` is cleared.
    pub fn tick(&mut self, delta_nanos: u128)
        requires
            old(self).wf(),
            old(self).elapsed_nanos + delta_nanos <= DURATION_MAX_NANOS,
        ensures
            *final(self) == old(self).ticked(delta_nanos as int),
            final(self).wf(),
    {
        self.elapsed_nanos = self.elapsed_nanos + delta_nanos;
        self.is_finished = false;
        if self.elapsed_nanos >= self.duration_nanos {
            match self.timer_type {
                TimerType::Once => {
                    self.is_finished = true;
                    self.elapsed_nanos = self.duration_nanos;
                },
                TimerType::Repeat => {
                    self.is_finished = true;
                    self.elapsed_nanos = 0;
                },
            }
        }
    }

    /// Resets the timer to its initial state, keeping its type and duration.
    pub fn reset(&mut self)
        ensures
            final(self).timer_type == old(self).timer_type,
            final(self).duration_nanos == old(self).duration_nanos,
            final(self).elapsed_nanos == 0,
            !final(self).is_finished,
    {
        self.is_finished = false;
        self.elapsed_nanos = 0;
    }

    /// Whether the timer finished on its last tick.
    pub fn is_finished(&self) -> (r: bool)
        ensures
            r == self.is_finished,
    {
        self.is_finished
    }
}

/// A tick finishes the timer exactly when the accumulated time reaches the
/// duration, and afterwards the elapsed time never exceeds the duration.
pub proof fn lemma_tick_finishes_on_reaching_duration(t: Timer, delta: int)
    requires
        t.wf(),
        delta >= 0,
        t.elapsed_nanos + delta <= DURATION_MAX_NANOS,
    ensures
        t.ticked(delta).is_finished <==> t.elapsed_nanos + delta >= t.duration_nanos,
        t.ticked(delta).elapsed_nanos <= t.duration_nanos,
        t.ticked(delta).wf(),
        t.ticked(delta).timer_type == t.timer_type,
        t.ticked(delta).duration_nanos == t.duration_nanos,
{
}

/// A `Once` timer that has run its full duration stays finished, and holds at
/// its duration, whatever time passes afterwards.
pub proof fn lemma_once_stays_finished(t: Timer, delta: int)
    requires
        t.timer_type == TimerType::Once,
        t.elapsed_nanos == t.duration_nanos,
        delta >= 0,
    ensures
        t.ticked(delta).is_finished,
        t.ticked(delta).elapsed_nanos == t.duration_nanos,
{
}

/// Once a tick has finished a `Once` timer, the timer holds at its duration,
/// and every later tick leaves it finished there.
pub proof fn lemma_once_finished_by_tick_stays_finished(t: Timer, d1: int, d2: int)
    requires
        t.timer_type == TimerType::Once,
        t.ticked(d1).is_finished,
        d2 >= 0,
    ensures
        t.ticked(d1).elapsed_nanos == t.duration_nanos,
        t.ticked(d1).ticked(d2).is_finished,
        t.ticked(d1).ticked(d2).elapsed_nanos == t.duration_nanos,
{
}

/// A `Repeat` timer starts over from zero each time it finishes.
pub proof fn lemma_repeat_starts_over(t: Timer, delta: int)
    requires
        t.timer_type == TimerType::Repeat,
        t.elapsed_nanos + delta >= t.duration_nanos,
    ensures
        t.ticked(delta).is_finished,
        t.ticked(delta).elapsed_nanos == 0,
{
}

/// Time that passes in two ticks that both stay short of the duration adds up
/// as in a single tick.
pub proof fn lemma_short_ticks_add_up(t: Timer, d1: int, d2: int)
    requires
        d1 >= 0,
        d2 >= 0,
        t.elapsed_nanos + d1 + d2 < t.duration_nanos,
    ensures
        t.ticked(d1).ticked(d2) == t.ticked(d1 + d2),
{
}

} // verus!
