//! The control events of a simulation and what each kind does to the speed
//! controller.
//!
//! Events are gathered over one cycle of the host loop and handled
//! together. Of the events of one kind only the last one counts: however
//! many increases arrive in a cycle, the speed rises by one rank.

use vstd::prelude::*;

use crate::speed::{IterationSpeed, SpeedConfiguration};

verus! {

/// Asks for the next higher speed.
#[derive(Clone, Copy, Debug, Default, PartialEq, Eq)]
pub struct IterationSpeedIncreaseEvent;

/// Asks for the next lower speed.
#[derive(Clone, Copy, Debug, Default, PartialEq, Eq)]
pub struct IterationSpeedDecreaseEvent;

/// Asks for a pause where `will_pause` is set, for a resume where it is not.
#[derive(Clone, Copy, Debug, Default, PartialEq, Eq)]
pub struct IterationPauseEvent {
    pub will_pause: bool,
}

/// Asks for a pause while the simulation runs and for a resume while it is
/// paused.
#[derive(Clone, Copy, Debug, Default, PartialEq, Eq)]
pub struct IterationPauseToggleEvent;

/// The speed after the increase events of one cycle.
pub open spec fn speed_after_increases(
    speed: IterationSpeed,
    events: Seq<IterationSpeedIncreaseEvent>,
) -> IterationSpeed {
    if events.len() > 0 {
        speed.faster()
    } else {
        speed
    }
}

/// The speed after the decrease events of one cycle.
pub open spec fn speed_after_decreases(
    speed: IterationSpeed,
    events: Seq<IterationSpeedDecreaseEvent>,
) -> IterationSpeed {
    if events.len() > 0 {
        speed.slower()
    } else {
        speed
    }
}

/// The speed after the pause events of one cycle: the last of them decides.
pub open spec fn speed_after_pauses(
    speed: IterationSpeed,
    events: Seq<IterationPauseEvent>,
) -> IterationSpeed {
    if events.len() > 0 {
        IterationSpeed::forced(events.last().will_pause)
    } else {
        speed
    }
}

/// The speed after the toggle events of one cycle.
pub open spec fn speed_after_toggles(
    speed: IterationSpeed,
    events: Seq<IterationPauseToggleEvent>,
) -> IterationSpeed {
    if events.len() > 0 {
        speed.toggled()
    } else {
        speed
    }
}

/// Raises the speed by one rank if any increase event has arrived.
pub fn iteration_speed_increase_event_handler(
    events: &[IterationSpeedIncreaseEvent],
    speed_configuration: &mut SpeedConfiguration,
)
    ensures
        final(speed_configuration).current_speed == speed_after_increases(
            old(speed_configuration).current_speed,
            events@,
        ),
        final(speed_configuration).durations == old(speed_configuration).durations,
{
    if events.len() > 0 {
        speed_configuration.increase_speed();
    }
}

/// Lowers the speed by one rank if any decrease event has arrived.
pub fn iteration_speed_decrease_event_handler(
    events: &[IterationSpeedDecreaseEvent],
    speed_configuration: &mut SpeedConfiguration,
)
    ensures
        final(speed_configuration).current_speed == speed_after_decreases(
            old(speed_configuration).current_speed,
            events@,
        ),
        final(speed_configuration).durations == old(speed_configuration).durations,
{
    if events.len() > 0 {
        speed_configuration.decrease_speed();
    }
}

/// Pauses or resumes as the last pause event asks. Earlier pause events of
/// the cycle are discarded: the last one would overwrite them anyway.
pub fn iteration_pause_event_handler(
    events: &[IterationPauseEvent],
    speed_configuration: &mut SpeedConfiguration,
)
    ensures
        final(speed_configuration).current_speed == speed_after_pauses(
            old(speed_configuration).current_speed,
            events@,
        ),
        final(speed_configuration).durations == old(speed_configuration).durations,
{
    let count: usize = events.len();
    if count > 0 {
        speed_configuration.set_paused(events[count - 1].will_pause);
    }
}

/// Toggles between paused and running if any toggle event has arrived.
pub fn iteration_pause_toggle_event_handler(
    events: &[IterationPauseToggleEvent],
    speed_configuration: &mut SpeedConfiguration,
)
    ensures
        final(speed_configuration).current_speed == speed_after_toggles(
            old(speed_configuration).current_speed,
            events@,
        ),
        final(speed_configuration).durations == old(speed_configuration).durations,
{
    if events.len() > 0 {
        speed_configuration.toggle_pause();
    }
}

/// The control events that arrived during one cycle of the host loop, each
/// kind in the order of arrival.
#[derive(Debug, Default, PartialEq, Eq)]
pub struct ControlEvents {
    pub speed_increases: Vec<IterationSpeedIncreaseEvent>,
    pub speed_decreases: Vec<IterationSpeedDecreaseEvent>,
    pub pauses: Vec<IterationPauseEvent>,
    pub pause_toggles: Vec<IterationPauseToggleEvent>,
}

impl ControlEvents {
    /// The speed that the controller selects once the events of the cycle
    /// have been handled. The kinds are handled one after the other:
    /// toggles, pauses, increases, decreases.
    pub open spec fn speed_after(self, speed: IterationSpeed) -> IterationSpeed {
        speed_after_decreases(
            speed_after_increases(
                speed_after_pauses(
                    speed_after_toggles(speed, self.pause_toggles@),
                    self.pauses@,
                ),
                self.speed_increases@,
            ),
            self.speed_decreases@,
        )
    }

    /// A cycle in which no event has arrived.
    pub fn new() -> (events: ControlEvents)
        ensures
            events.speed_increases@.len() == 0,
            events.speed_decreases@.len() == 0,
            events.pauses@.len() == 0,
            events.pause_toggles@.len() == 0,
    {
        ControlEvents {
            speed_increases: Vec::new(),
            speed_decreases: Vec::new(),
            pauses: Vec::new(),
            pause_toggles: Vec::new(),
        }
    }

    /// Handles the events of the cycle, kind by kind.
    pub fn apply(&self, speed_configuration: &mut SpeedConfiguration)
        ensures
            final(speed_configuration).current_speed == self.speed_after(
                old(speed_configuration).current_speed,
            ),
            final(speed_configuration).durations == old(speed_configuration).durations,
    {
        iteration_pause_toggle_event_handler(self.pause_toggles.as_slice(), speed_configuration);
        iteration_pause_event_handler(self.pauses.as_slice(), speed_configuration);
        iteration_speed_increase_event_handler(
            self.speed_increases.as_slice(),
            speed_configuration,
        );
        iteration_speed_decrease_event_handler(
            self.speed_decreases.as_slice(),
            speed_configuration,
        );
    }
}

/// A cycle without events leaves the speed as it is.
pub proof fn lemma_no_events_no_change(events: ControlEvents, speed: IterationSpeed)
    requires
        events.speed_increases@.len() == 0,
        events.speed_decreases@.len() == 0,
        events.pauses@.len() == 0,
        events.pause_toggles@.len() == 0,
    ensures
        events.speed_after(speed) == speed,
{
}

/// Of the pause events of one cycle only the last one has any effect.
pub proof fn lemma_last_pause_wins(
    speed: IterationSpeed,
    earlier: Seq<IterationPauseEvent>,
    last: IterationPauseEvent,
)
    ensures
        speed_after_pauses(speed, earlier.push(last)) == IterationSpeed::forced(last.will_pause),
        speed_after_pauses(speed, earlier.push(last)) == speed_after_pauses(speed, seq![last]),
{
}

} // verus!
