//! Timers that can be paused.
//!
//! All times are whole nanoseconds. A timer reads a monotonic clock; what
//! it makes of a reading is decided by [`TimerState`], which never looks at
//! a clock itself.

use std::time::Instant;
use vstd::prelude::*;

verus! {

/// A point in time on the monotonic clock of `std`. Nothing is known of its
/// inside.
#[verifier::external_type_specification]
#[verifier::external_body]
pub struct ExInstant(std::time::Instant);

/// Reads the clock: calls `std::time::Instant::now`. Nothing is claimed of
/// the instant that comes back.
#[verifier::external_body]
fn clock_start() -> Instant {
    Instant::now()
}

/// The nanoseconds that have passed since `origin`: calls
/// `std::time::Instant::elapsed` and gives the duration in nanoseconds.
/// Nothing is claimed of the number that comes back.
#[verifier::external_body]
fn nanos_since(origin: &Instant) -> u128 {
    origin.elapsed().as_nanos()
}

/// The time from `earlier` to `later`, zero where `later` is the earlier of
/// the two.
pub open spec fn span(later: u128, earlier: u128) -> u128 {
    if later >= earlier {
        (later - earlier) as u128
    } else {
        0
    }
}

/// Computes the time from `earlier` to `later`.
pub fn span_between(later: u128, earlier: u128) -> (gap: u128)
    ensures
        gap == span(later, earlier),
{
    if later >= earlier {
        later - earlier
    } else {
        0
    }
}

/// What a timer remembers, in nanoseconds on its own clock.
#[derive(Debug, Clone, Copy, PartialEq, Eq, Structural)]
pub struct TimerState {
    /// When the timer was started or last reset.
    pub start: u128,
    /// How long the timer runs.
    pub duration: u128,
    /// Whether the timer is paused.
    pub paused: bool,
    /// When the current pause began.
    pub pause_time: Option<u128>,
    /// The time spent in pauses that have ended.
    pub accumulated_pause: u128,
}

impl TimerState {
    /// A running timer that was started at `start`.
    pub open spec fn started(start: u128, duration: u128) -> TimerState {
        TimerState { start, duration, paused: false, pause_time: None, accumulated_pause: 0 }
    }

    /// The timer after a reset at `now`: running, started at `now`, with no
    /// pause on record and the same duration.
    pub open spec fn after_reset(self, now: u128) -> TimerState {
        Self::started(now, self.duration)
    }

    /// The timer after a request to pause at `now`: a running timer is
    /// paused from `now` on, a paused one stays as it is.
    pub open spec fn after_pause(self, now: u128) -> TimerState {
        if self.paused {
            self
        } else {
            TimerState { paused: true, pause_time: Some(now), ..self }
        }
    }

    /// The time in pauses once the pause that is under way ends at `now`.
    pub open spec fn pause_total(self, now: u128) -> u128 {
        match self.pause_time {
            Some(since) => if self.accumulated_pause + span(now, since) > u128::MAX {
                u128::MAX
            } else {
                (self.accumulated_pause + span(now, since)) as u128
            },
            None => self.accumulated_pause,
        }
    }

    /// The timer after a request to resume at `now`: a paused timer runs
    /// again and the pause that ends is added to the time spent in pauses;
    /// a running one stays as it is.
    pub open spec fn after_resume(self, now: u128) -> TimerState {
        if self.paused {
            TimerState {
                paused: false,
                pause_time: None,
                accumulated_pause: self.pause_total(now),
                ..self
            }
        } else {
            self
        }
    }

    /// The clock reading that counts at `now`: the beginning of the pause
    /// while the timer is paused, `now` itself while it runs.
    pub open spec fn reading(self, now: u128) -> u128 {
        if self.paused {
            match self.pause_time {
                Some(since) => since,
                None => now,
            }
        } else {
            now
        }
    }

    /// The time that the timer has run at `now`: the time since its start,
    /// less the time spent in pauses, and never below zero.
    pub open spec fn elapsed_when(self, now: u128) -> u128 {
        span(span(self.reading(now), self.start), self.accumulated_pause)
    }

    /// Whether the timer has run for its whole duration at `now`.
    pub open spec fn finished_when(self, now: u128) -> bool {
        self.elapsed_when(now) >= self.duration
    }

    /// The time that the timer still has to run at `now`.
    pub open spec fn remaining_when(self, now: u128) -> u128 {
        span(self.duration, self.elapsed_when(now))
    }

    /// Creates a running timer that was started at `start`.
    pub fn new(start: u128, duration: u128) -> (state: TimerState)
        ensures
            state == Self::started(start, duration),
    {
        TimerState { start, duration, paused: false, pause_time: None, accumulated_pause: 0 }
    }

    /// Resets the timer at `now`.
    pub fn reset_at(&mut self, now: u128)
        ensures
            *final(self) == old(self).after_reset(now),
    {
        self.start = now;
        self.paused = false;
        self.pause_time = None;
        self.accumulated_pause = 0;
    }

    /// Pauses the timer at `now`.
    pub fn pause_at(&mut self, now: u128)
        ensures
            *final(self) == old(self).after_pause(now),
    {
        if !self.paused {
            self.paused = true;
            self.pause_time = Some(now);
        }
    }

    /// Resumes the timer at `now`.
    pub fn resume_at(&mut self, now: u128)
        ensures
            *final(self) == old(self).after_resume(now),
    {
        if self.paused {
            match self.pause_time {
                Some(since) => {
                    let gap = span_between(now, since);
                    if gap > u128::MAX - self.accumulated_pause {
                        self.accumulated_pause = u128::MAX;
                    } else {
                        self.accumulated_pause = self.accumulated_pause + gap;
                    }
                },
                None => {},
            }
            self.paused = false;
            self.pause_time = None;
        }
    }

    /// The time that the timer has run at `now`.
    pub fn elapsed_at(&self, now: u128) -> (elapsed: u128)
        ensures
            elapsed == self.elapsed_when(now),
    {
        let reading = if self.paused {
            match self.pause_time {
                Some(since) => since,
                None => now,
            }
        } else {
            now
        };
        span_between(span_between(reading, self.start), self.accumulated_pause)
    }

    /// Whether the timer has run for its whole duration at `now`.
    pub fn finished_at(&self, now: u128) -> (finished: bool)
        ensures
            finished == self.finished_when(now),
    {
        self.elapsed_at(now) >= self.duration
    }

    /// The time that the timer still has to run at `now`.
    pub fn remaining_at(&self, now: u128) -> (remaining: u128)
        ensures
            remaining == self.remaining_when(now),
    {
        span_between(self.duration, self.elapsed_at(now))
    }
}

/// While a timer is paused its clock stands still: the time it has run
/// does not depend on when it is asked.
pub proof fn lemma_paused_timer_stands_still(state: TimerState, a: u128, b: u128)
    requires
        state.paused,
        state.pause_time is Some,
    ensures
        state.elapsed_when(a) == state.elapsed_when(b),
        state.remaining_when(a) == state.remaining_when(b),
{
}

/// A timer is finished exactly when no time remains, and until then the
/// time run and the time remaining add up to the duration.
pub proof fn lemma_remaining_complements_elapsed(state: TimerState, now: u128)
    ensures
        state.finished_when(now) <==> state.remaining_when(now) == 0,
        !state.finished_when(now) ==> state.elapsed_when(now) + state.remaining_when(now)
            == state.duration,
{
}

/// A pause does not count: for a running timer that is paused at `paused`
/// and resumed at `resumed`, the time run at a later `now` is shorter by
/// the length of the pause than it would have been without it.
pub proof fn lemma_pause_is_not_counted(state: TimerState, paused: u128, resumed: u128, now: u128)
    requires
        !state.paused,
        state.start + state.accumulated_pause <= paused <= resumed <= now,
        state.accumulated_pause + (resumed - paused) <= u128::MAX,
    ensures
        state.after_pause(paused).after_resume(resumed).elapsed_when(now) + (resumed - paused)
            == state.elapsed_when(now),
        state.after_pause(paused).elapsed_when(now) == state.elapsed_when(paused),
{
}

/// A reset starts the timer afresh: right at the reset no time has run and
/// the whole duration remains.
pub proof fn lemma_reset_starts_afresh(state: TimerState, now: u128)
    ensures
        state.after_reset(now).elapsed_when(now) == 0,
        state.after_reset(now).remaining_when(now) == state.duration,
        state.after_reset(now).duration == state.duration,
{
}

/// A timer that measures an interval on the monotonic clock.
pub struct Timer {
    origin: Instant,
    state: TimerState,
}

impl View for Timer {
    type V = TimerState;

    closed spec fn view(&self) -> TimerState {
        self.state
    }
}

impl Timer {
    /// Creates a running timer of the given duration, in nanoseconds, that
    /// starts now: at zero on its own clock.
    pub fn new(duration: u128) -> (timer: Timer)
        ensures
            timer@ == TimerState::started(0, duration),
    {
        Timer { origin: clock_start(), state: TimerState::new(0, duration) }
    }

    /// What the timer remembers.
    pub fn state(&self) -> (state: TimerState)
        ensures
            state == self@,
    {
        self.state
    }

    /// Resets the timer: it runs again from the moment of the call.
    pub fn reset(&mut self)
        ensures
            exists|now: u128| final(self)@ == old(self)@.after_reset(now),
            final(self)@.duration == old(self)@.duration,
    {
        let now = nanos_since(&self.origin);
        self.state.reset_at(now);
        assert(self@ == old(self)@.after_reset(now));
    }

    /// Pauses the timer; a timer that is paused already stays as it is.
    pub fn pause(&mut self)
        ensures
            exists|now: u128| final(self)@ == old(self)@.after_pause(now),
            final(self)@.paused,
            old(self)@.paused ==> final(self)@ == old(self)@,
    {
        let now = nanos_since(&self.origin);
        self.state.pause_at(now);
        assert(self@ == old(self)@.after_pause(now));
    }

    /// Resumes the timer; a timer that runs already stays as it is.
    pub fn resume(&mut self)
        ensures
            exists|now: u128| final(self)@ == old(self)@.after_resume(now),
            !final(self)@.paused,
            !old(self)@.paused ==> final(self)@ == old(self)@,
    {
        let now = nanos_since(&self.origin);
        self.state.resume_at(now);
        assert(self@ == old(self)@.after_resume(now));
    }

    /// Whether the timer has run for its whole duration.
    pub fn finished(&self) -> (finished: bool)
        ensures
            exists|now: u128| finished == self@.finished_when(now),
    {
        let now = nanos_since(&self.origin);
        let finished = self.state.finished_at(now);
        assert(finished == self@.finished_when(now));
        finished
    }

    /// The time that the timer has run, in nanoseconds.
    pub fn elapsed(&self) -> (elapsed: u128)
        ensures
            exists|now: u128| elapsed == self@.elapsed_when(now),
    {
        let now = nanos_since(&self.origin);
        let elapsed = self.state.elapsed_at(now);
        assert(elapsed == self@.elapsed_when(now));
        elapsed
    }

    /// The time that the timer still has to run, in nanoseconds.
    pub fn remaining(&self) -> (remaining: u128)
        ensures
            exists|now: u128| remaining == self@.remaining_when(now),
            remaining <= self@.duration,
    {
        let now = nanos_since(&self.origin);
        let remaining = self.state.remaining_at(now);
        assert(remaining == self@.remaining_when(now));
        remaining
    }
}

} // verus!
