//! A countdown that either latches when it completes or starts over. The
//! timer is plain data; the step of a running timer is the engine's.

use vstd::prelude::*;
use bevy::time::TimerMode;
use std::time::Duration;

verus! {

/// A timer over whole milliseconds.
///
/// A one-shot timer counts up to its duration and then stays finished until
/// it is reset. A repeating timer starts a new cycle each time its duration
/// has gone by and carries the remainder over into the next cycle.
#[derive(Clone, Copy, Debug, PartialEq, Eq, Structural)]
pub struct Timer {
    /// Length of one cycle.
    pub duration: u64,
    /// Time gone by in the current cycle.
    pub elapsed: u64,
    /// Whether the timer starts over when a cycle completes.
    pub repeating: bool,
    /// Whether the last tick found the duration gone by.
    pub finished: bool,
    /// Cycles that the last tick completed.
    pub times_finished: u32,
}

/// Number of whole cycles of length `duration` in `total`, as the engine
/// counts them: of the quotient it keeps the low 32 bits, and cycles of
/// length zero count as more than can be counted.
pub open spec fn cycles_completed(total: int, duration: int) -> int {
    if duration <= 0 {
        u32::MAX as int
    } else {
        (total / duration) % 0x1_0000_0000
    }
}

/// What is left of `total` after its whole cycles of length `duration`, as
/// the engine keeps it: it counts what is left in nanoseconds, of whose
/// number it keeps the low 64 bits. Up to a duration of
/// `LONGEST_EXACT_DURATION` that is the remainder.
pub open spec fn cycle_remainder(total: int, duration: int) -> int {
    if duration <= 0 {
        0
    } else {
        (((total % duration) * 1_000_000) % 0x1_0000_0000_0000_0000) / 1_000_000
    }
}

/// The longest duration, in milliseconds, whose number of nanoseconds is
/// below two to the power of 64: some 584 years.
pub const LONGEST_EXACT_DURATION: u64 = 18_446_744_073_709;

/// Time gone by, finished state and cycles completed of a timer that was
/// not finished and has taken a tick of `delta` milliseconds.
pub open spec fn running_ticked(duration: u64, elapsed: u64, repeating: bool, delta: u64) -> (
    u64,
    bool,
    u32,
) {
    let total = elapsed + delta;
    if total < duration {
        (total as u64, false, 0u32)
    } else if repeating {
        (
            cycle_remainder(total, duration as int) as u64,
            true,
            cycles_completed(total, duration as int) as u32,
        )
    } else {
        (duration, true, 1u32)
    }
}

/// Lets a timer of the engine make the step: `bevy::time::Timer::tick`, on a
/// timer made by `Timer::new` and `Timer::set_elapsed`, read back by
/// `elapsed`, `finished` and `times_finished_this_tick`.
///
/// The source of `tick` shows, for a timer that is neither paused nor
/// finished: the tick is added to the time gone by, and the timer is
/// finished if that reaches the duration. A one-shot timer that finishes
/// stands at its duration with one cycle completed. A repeating timer that
/// finishes divides the nanoseconds gone by by those of the duration; it
/// keeps the quotient, cast to `u32`, as the cycles completed and the
/// remainder, cast to `u64` nanoseconds, as the time gone by; where the
/// duration is zero it keeps `u32::MAX` and zero. All times handed in are
/// whole milliseconds, whose sums stay far within a `Duration`.
#[verifier::external_body]
fn engine_tick(duration: u64, elapsed: u64, repeating: bool, delta: u64) -> (after: (
    u64,
    bool,
    u32,
))
    ensures
        after == running_ticked(duration, elapsed, repeating, delta),
{
    let mode = if repeating { TimerMode::Repeating } else { TimerMode::Once };
    let mut timer = bevy::time::Timer::new(Duration::from_millis(duration), mode);
    timer.set_elapsed(Duration::from_millis(elapsed));
    timer.tick(Duration::from_millis(delta));
    (timer.elapsed().as_millis() as u64, timer.finished(), timer.times_finished_this_tick())
}

impl Timer {
    /// The timer that `tick` leaves behind. A one-shot timer that has
    /// finished only forgets that it has just done so; any other timer makes
    /// the step of a running timer.
    pub open spec fn ticked(self, delta: u64) -> Timer {
        if !self.repeating && self.finished {
            Timer { times_finished: 0, ..self }
        } else {
            let after = running_ticked(self.duration, self.elapsed, self.repeating, delta);
            Timer { elapsed: after.0, finished: after.1, times_finished: after.2, ..self }
        }
    }

    pub open spec fn spec_new(duration: u64, repeating: bool) -> Timer {
        Timer { duration, elapsed: 0, repeating, finished: false, times_finished: 0 }
    }

    /// The timer with another duration and the same progress.
    pub open spec fn with_duration(self, duration: u64) -> Timer {
        Timer { duration, ..self }
    }

    /// The timer that `reset` leaves behind.
    pub open spec fn rewound(self) -> Timer {
        Timer { elapsed: 0, finished: false, times_finished: 0, ..self }
    }

    /// A fresh timer: nothing elapsed, not finished.
    #[verifier::when_used_as_spec(spec_new)]
    pub fn new(duration: u64, repeating: bool) -> (timer: Timer)
        ensures
            timer == Timer::spec_new(duration, repeating),
    {
        Timer { duration, elapsed: 0, repeating, finished: false, times_finished: 0 }
    }

    /// Whether the duration had gone by at the last tick.
    pub fn finished(&self) -> (b: bool)
        ensures
            b == self.finished,
    {
        self.finished
    }

    /// Whether the last tick completed at least one cycle.
    pub fn just_finished(&self) -> (b: bool)
        ensures
            b == (self.times_finished > 0),
    {
        self.times_finished > 0
    }

    /// Changes the length of a cycle; the time gone by stays.
    pub fn set_duration(&mut self, duration: u64)
        ensures
            *final(self) == old(self).with_duration(duration),
    {
        self.duration = duration;
    }

    /// Starts the current cycle over and clears the finished state.
    pub fn reset(&mut self)
        ensures
            *final(self) == old(self).rewound(),
    {
        self.elapsed = 0;
        self.finished = false;
        self.times_finished = 0;
    }

    /// Advances the timer by `delta` milliseconds.
    pub fn tick(&mut self, delta: u64)
        ensures
            *final(self) == old(self).ticked(delta),
    {
        if !self.repeating && self.finished {
            self.times_finished = 0;
            return;
        }
        let after = engine_tick(self.duration, self.elapsed, self.repeating, delta);
        self.elapsed = after.0;
        self.finished = after.1;
        self.times_finished = after.2;
    }
}

} // verus!
