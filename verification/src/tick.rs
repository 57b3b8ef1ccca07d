//! The tick gate: a repeating timer that turns elapsed time into turns.
//!
//! The timer gathers the time handed to it and reports a turn once the
//! gathered time has reached its duration. It then starts again from zero:
//! time beyond the duration is dropped, so one call reports at most one turn
//! however much time it brings. A paused timer keeps gathering and never
//! reports a turn.
//!
//! All durations are whole nanoseconds.

use vstd::prelude::*;

use crate::speed::SpeedConfiguration;

verus! {

/// Duration of a timer before a speed has been applied to it: 0.5 s.
pub const INITIAL_TICK_DURATION: u64 = 500_000_000;

/// What a [`TickTimer`] holds.
pub struct TickState {
    /// Time gathered since the last turn.
    pub elapsed: u64,
    /// Time that a turn takes.
    pub duration: u64,
    /// Whether turns are withheld.
    pub paused: bool,
    /// Whether the last advance reported a turn.
    pub just_finished: bool,
}

impl TickState {
    /// The time gathered once `delta` has been added, capped at what the
    /// timer can hold.
    pub open spec fn gathered(self, delta: u64) -> u64 {
        if self.elapsed + delta <= u64::MAX {
            (self.elapsed + delta) as u64
        } else {
            u64::MAX
        }
    }

    /// Whether an advance by `delta` reports a turn: the timer runs and the
    /// time gathered, `delta` included, has reached the duration.
    pub open spec fn fires(self, delta: u64) -> bool {
        !self.paused && self.elapsed + delta >= self.duration
    }

    /// The state after an advance by `delta`.
    pub open spec fn advanced(self, delta: u64) -> TickState {
        if self.fires(delta) {
            TickState { elapsed: 0, just_finished: true, ..self }
        } else {
            TickState { elapsed: self.gathered(delta), just_finished: false, ..self }
        }
    }

    /// The state after the interval of a speed controller has been applied:
    /// without an interval the timer is paused and keeps its duration, with
    /// one it runs and takes the interval as its duration. The time gathered
    /// so far stays as it is.
    pub open spec fn configured(self, interval: Option<u64>) -> TickState {
        match interval {
            None => TickState { paused: true, ..self },
            Some(duration) => TickState { paused: false, duration, ..self },
        }
    }
}

/// A paused timer reports no turn, whatever time it is handed, and stays
/// paused.
pub proof fn lemma_paused_timer_is_silent(state: TickState, delta: u64)
    requires
        state.paused,
    ensures
        !state.fires(delta),
        !state.advanced(delta).just_finished,
        state.advanced(delta).paused,
{
}

/// A turn starts the timer again from zero: whatever the advance brought
/// beyond the duration is dropped, and unless the duration is zero an
/// advance by no time at all does not report a second turn.
pub proof fn lemma_turn_drops_overshoot(state: TickState, delta: u64)
    requires
        state.fires(delta),
    ensures
        state.advanced(delta).elapsed == 0,
        state.advanced(delta).just_finished,
        state.duration > 0 ==> !state.advanced(delta).fires(0),
{
}

/// Below its duration a running timer keeps what it has gathered and adds
/// what it is handed.
pub proof fn lemma_timer_gathers_below_duration(state: TickState, delta: u64)
    requires
        !state.paused,
        state.elapsed + delta < state.duration,
    ensures
        !state.fires(delta),
        state.advanced(delta).elapsed == state.elapsed + delta,
{
}

/// Applying an interval does not touch the time gathered, and applying the
/// same interval twice changes nothing more.
pub proof fn lemma_configuring_keeps_progress(state: TickState, interval: Option<u64>)
    ensures
        state.configured(interval).elapsed == state.elapsed,
        state.configured(interval).just_finished == state.just_finished,
        state.configured(interval).configured(interval) == state.configured(interval),
{
}

/// The repeating timer that decides when the board takes its turn.
#[derive(Clone, Copy, Debug, PartialEq, Eq)]
pub struct TickTimer {
    elapsed: u64,
    duration: u64,
    paused: bool,
    finished: bool,
}

impl View for TickTimer {
    type V = TickState;

    closed spec fn view(&self) -> TickState {
        TickState {
            elapsed: self.elapsed,
            duration: self.duration,
            paused: self.paused,
            just_finished: self.finished,
        }
    }
}

impl TickTimer {
    /// A running timer of the given duration that has gathered no time yet.
    pub fn new(duration: u64) -> (timer: TickTimer)
        ensures
            timer@ == (TickState { elapsed: 0, duration, paused: false, just_finished: false }),
    {
        TickTimer { elapsed: 0, duration, paused: false, finished: false }
    }

    /// Hands the timer the time that has passed since the last call and
    /// tells whether it is the board's turn.
    pub fn advance(&mut self, delta: u64) -> (ready: bool)
        ensures
            ready == old(self)@.fires(delta),
            final(self)@ == old(self)@.advanced(delta),
    {
        let gathered: u64 = self.elapsed.saturating_add(delta);
        if !self.paused && gathered >= self.duration {
            self.elapsed = 0;
            self.finished = true;
        } else {
            self.elapsed = gathered;
            self.finished = false;
        }
        self.finished
    }

    /// Whether the last advance reported a turn.
    pub fn just_finished(&self) -> (finished: bool)
        ensures
            finished == self@.just_finished,
    {
        self.finished
    }

    /// Time gathered since the last turn.
    pub fn elapsed(&self) -> (elapsed: u64)
        ensures
            elapsed == self@.elapsed,
    {
        self.elapsed
    }

    /// Time that a turn takes.
    pub fn duration(&self) -> (duration: u64)
        ensures
            duration == self@.duration,
    {
        self.duration
    }

    /// Whether turns are withheld.
    pub fn paused(&self) -> (paused: bool)
        ensures
            paused == self@.paused,
    {
        self.paused
    }

    /// Withholds turns until the timer is unpaused.
    pub fn pause(&mut self)
        ensures
            final(self)@ == (TickState { paused: true, ..old(self)@ }),
    {
        self.paused = true;
    }

    /// Lets the timer report turns again.
    pub fn unpause(&mut self)
        ensures
            final(self)@ == (TickState { paused: false, ..old(self)@ }),
    {
        self.paused = false;
    }

    /// Changes the time that a turn takes. The time gathered so far counts
    /// towards the new duration as it is.
    pub fn set_duration(&mut self, duration: u64)
        ensures
            final(self)@ == (TickState { duration, ..old(self)@ }),
    {
        self.duration = duration;
    }
}

/// Applies the selected speed to the timer: a paused controller pauses the
/// timer, any other speed lets it run with that speed's interval.
pub fn set_tick_timer_duration_to_iteration_speed(
    speed_configuration: &SpeedConfiguration,
    tick_timer: &mut TickTimer,
)
    ensures
        final(tick_timer)@ == old(tick_timer)@.configured(speed_configuration.interval()),
{
    match speed_configuration.resolved_interval() {
        None => {
            tick_timer.pause();
        },
        Some(duration) => {
            tick_timer.unpause();
            tick_timer.set_duration(duration);
        },
    }
}

} // verus!
