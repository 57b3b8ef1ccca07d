//! One simulation: a board, the speed controller and the tick timer that
//! gates the board's turns.
//!
//! The host loop calls [`Simulation::update`] once per cycle with the time
//! that has passed and the control events that have arrived. The timer is
//! advanced first, with the speed that the cycle before has left; then the
//! board takes its turn if the timer says so; then the events are handled
//! and the resulting speed is applied to the timer, where the next cycle
//! finds it.

use vstd::prelude::*;

use crate::cell::CellState;
use crate::events::ControlEvents;
use crate::grid::{next_generation, Grid};
use crate::speed::SpeedConfiguration;
use crate::tick::{
    set_tick_timer_duration_to_iteration_speed, TickState, TickTimer, INITIAL_TICK_DURATION,
};

verus! {

/// What a [`Simulation`] holds.
pub struct SimulationState {
    pub cells: Seq<Seq<CellState>>,
    pub speed_configuration: SpeedConfiguration,
    pub tick: TickState,
}

impl SimulationState {
    /// The state after one cycle of the host loop in which `delta` has
    /// passed and `events` have arrived.
    pub open spec fn updated(self, delta: u64, events: ControlEvents) -> SimulationState {
        let speed_configuration = SpeedConfiguration {
            current_speed: events.speed_after(self.speed_configuration.current_speed),
            ..self.speed_configuration
        };
        SimulationState {
            cells: if self.tick.fires(delta) {
                next_generation(self.cells)
            } else {
                self.cells
            },
            speed_configuration,
            tick: self.tick.advanced(delta).configured(speed_configuration.interval()),
        }
    }
}

impl SimulationState {
    /// The timer follows the speed controller: it is paused just when the
    /// controller is, and while it runs its duration is the interval of the
    /// selected speed.
    pub open spec fn timer_follows_speed(self) -> bool {
        match self.speed_configuration.interval() {
            None => self.tick.paused,
            Some(duration) => !self.tick.paused && self.tick.duration == duration,
        }
    }
}

/// Whatever a cycle brings, it leaves the timer set to the speed that the
/// controller then selects, so that the next cycle is timed by it.
pub proof fn lemma_timer_follows_speed(state: SimulationState, delta: u64, events: ControlEvents)
    ensures
        state.updated(delta, events).timer_follows_speed(),
        state.updated(delta, events).speed_configuration.durations
            == state.speed_configuration.durations,
{
}

/// While the timer is paused the board stands still, however much time
/// passes.
pub proof fn lemma_paused_board_stands_still(
    state: SimulationState,
    delta: u64,
    events: ControlEvents,
)
    requires
        state.tick.paused,
    ensures
        state.updated(delta, events).cells == state.cells,
        !state.updated(delta, events).tick.just_finished,
{
}

/// A cycle changes the board by one generation at most: the board after the
/// cycle is the one before it or its next generation, and it is the next
/// generation just when the cycle reports a turn.
pub proof fn lemma_one_turn_per_cycle(state: SimulationState, delta: u64, events: ControlEvents)
    ensures
        state.updated(delta, events).tick.just_finished == state.tick.fires(delta),
        state.tick.fires(delta) ==> state.updated(delta, events).cells == next_generation(
            state.cells,
        ),
        !state.tick.fires(delta) ==> state.updated(delta, events).cells == state.cells,
{
}

/// A board together with what decides when it takes its turns.
#[derive(Debug, PartialEq, Eq)]
pub struct Simulation {
    grid: Grid,
    speed_configuration: SpeedConfiguration,
    tick_timer: TickTimer,
}

impl View for Simulation {
    type V = SimulationState;

    closed spec fn view(&self) -> SimulationState {
        SimulationState {
            cells: self.grid@,
            speed_configuration: self.speed_configuration,
            tick: self.tick_timer@,
        }
    }
}

impl Simulation {
    /// A simulation of `grid` at the speed that `speed_configuration`
    /// selects. Its timer has gathered no time yet.
    pub fn new(grid: Grid, speed_configuration: SpeedConfiguration) -> (simulation: Simulation)
        ensures
            simulation@.cells == grid@,
            simulation@.speed_configuration == speed_configuration,
            simulation@.timer_follows_speed(),
            simulation@.tick == (TickState {
                elapsed: 0,
                duration: INITIAL_TICK_DURATION,
                paused: false,
                just_finished: false,
            }).configured(speed_configuration.interval()),
    {
        let mut tick_timer = TickTimer::new(INITIAL_TICK_DURATION);
        set_tick_timer_duration_to_iteration_speed(&speed_configuration, &mut tick_timer);
        Simulation { grid, speed_configuration, tick_timer }
    }

    /// One cycle of the host loop. Tells whether the board has taken a turn.
    pub fn update(&mut self, delta: u64, events: &ControlEvents) -> (turn_taken: bool)
        ensures
            turn_taken == old(self)@.tick.fires(delta),
            final(self)@ == old(self)@.updated(delta, *events),
    {
        let turn_taken = self.tick_timer.advance(delta);
        if turn_taken {
            self.grid.iterate_board_state();
        }
        events.apply(&mut self.speed_configuration);
        set_tick_timer_duration_to_iteration_speed(&self.speed_configuration, &mut self.tick_timer);
        turn_taken
    }

    /// The board as the last cycle has left it.
    pub fn grid(&self) -> (grid: &Grid)
        ensures
            grid@ == self@.cells,
    {
        &self.grid
    }

    /// The speed controller as the last cycle has left it.
    pub fn speed_configuration(&self) -> (speed_configuration: SpeedConfiguration)
        ensures
            speed_configuration == self@.speed_configuration,
    {
        self.speed_configuration
    }

    /// The tick timer as the last cycle has left it.
    pub fn tick_timer(&self) -> (tick_timer: TickTimer)
        ensures
            tick_timer@ == self@.tick,
    {
        self.tick_timer
    }

    /// Whether the board has taken a turn in the last cycle.
    pub fn turn_taken(&self) -> (taken: bool)
        ensures
            taken == self@.tick.just_finished,
    {
        self.tick_timer.just_finished()
    }
}

} // verus!
