//! Awards and the timer that paces them.

use vstd::prelude::*;
use crate::random::random_in_range;
use crate::timer::Timer;

verus! {

/// What a pickup grants.
#[derive(Clone, Copy, Debug, PartialEq, Eq, Structural)]
pub enum Award {
    /// Points added to the score; may be negative.
    Score(i64),
    /// Health given back to the player.
    Health(u8),
}

/// A repeating timer whose duration is drawn anew from `[min_time, max_time)`
/// each time it is refilled.
#[derive(Clone, Copy, Debug)]
pub struct AwardTimer {
    pub timer: Timer,
    pub min_time: u64,
    pub max_time: u64,
}

impl AwardTimer {
    /// Whether there is a duration to draw.
    pub open spec fn wf(self) -> bool {
        self.min_time < self.max_time
    }

    /// A fresh repeating timer with a first duration drawn from
    /// `[min_time, max_time)`.
    pub fn new(min_time: u64, max_time: u64) -> (timer: AwardTimer)
        requires
            min_time < max_time,
        ensures
            timer.wf(),
            timer.min_time == min_time,
            timer.max_time == max_time,
            min_time <= timer.timer.duration < max_time,
            timer.timer == Timer::spec_new(timer.timer.duration, true),
    {
        let mut timer = AwardTimer { timer: Timer::new(0, true), min_time, max_time };
        timer.refill();
        timer
    }

    /// Gives the timer the duration `drawn` and leaves its progress alone.
    pub fn refill_with(&mut self, drawn: u64)
        ensures
            *final(self) == (AwardTimer {
                timer: old(self).timer.with_duration(drawn),
                ..*old(self)
            }),
    {
        self.timer.set_duration(drawn);
    }

    /// Draws a new duration from `[min_time, max_time)`. Which one is drawn
    /// is left to chance; the timer's progress stays as it is.
    pub fn refill(&mut self)
        requires
            old(self).wf(),
        ensures
            final(self).wf(),
            old(self).min_time <= final(self).timer.duration < old(self).max_time,
            *final(self) == (AwardTimer {
                timer: old(self).timer.with_duration(final(self).timer.duration),
                ..*old(self)
            }),
    {
        let drawn: u64 = random_in_range(self.min_time, self.max_time);
        self.refill_with(drawn);
    }
}

} // verus!
