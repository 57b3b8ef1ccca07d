//! The speed controller: the selected iteration speed, the interval that
//! each speed stands for, and the control events that change the selection.
//!
//! All durations are whole nanoseconds.

use vstd::prelude::*;

use crate::error::InvalidConfiguration;

verus! {

/// How fast generations follow each other, from standing still to the
/// shortest interval.
#[derive(Clone, Copy, Debug, PartialEq, Eq, PartialOrd, Ord, Hash, Structural)]
pub enum IterationSpeed {
    Paused,
    VerySlow,
    Slow,
    Regular,
    Fast,
    VeryFast,
}

impl Default for IterationSpeed {
    fn default() -> (speed: IterationSpeed)
        ensures
            speed == IterationSpeed::Regular,
    {
        IterationSpeed::Regular
    }
}

impl IterationSpeed {
    /// The place of a speed in the order of speeds: `0` for `Paused`, `5`
    /// for `VeryFast`.
    pub open spec fn rank(self) -> int {
        match self {
            IterationSpeed::Paused => 0,
            IterationSpeed::VerySlow => 1,
            IterationSpeed::Slow => 2,
            IterationSpeed::Regular => 3,
            IterationSpeed::Fast => 4,
            IterationSpeed::VeryFast => 5,
        }
    }

    /// The next higher speed; `VeryFast` stays what it is.
    pub open spec fn faster(self) -> IterationSpeed {
        match self {
            IterationSpeed::Paused => IterationSpeed::VerySlow,
            IterationSpeed::VerySlow => IterationSpeed::Slow,
            IterationSpeed::Slow => IterationSpeed::Regular,
            IterationSpeed::Regular => IterationSpeed::Fast,
            IterationSpeed::Fast => IterationSpeed::VeryFast,
            IterationSpeed::VeryFast => IterationSpeed::VeryFast,
        }
    }

    /// The next lower speed; `Paused` stays what it is.
    pub open spec fn slower(self) -> IterationSpeed {
        match self {
            IterationSpeed::Paused => IterationSpeed::Paused,
            IterationSpeed::VerySlow => IterationSpeed::Paused,
            IterationSpeed::Slow => IterationSpeed::VerySlow,
            IterationSpeed::Regular => IterationSpeed::Slow,
            IterationSpeed::Fast => IterationSpeed::Regular,
            IterationSpeed::VeryFast => IterationSpeed::Fast,
        }
    }

    /// The speed after a pause toggle: a paused simulation resumes at
    /// `Regular`, a running one pauses.
    pub open spec fn toggled(self) -> IterationSpeed {
        if self == IterationSpeed::Paused {
            IterationSpeed::Regular
        } else {
            IterationSpeed::Paused
        }
    }

    /// The speed that an explicit pause or resume selects. A resume selects
    /// `Regular` whatever the speed was before the pause.
    pub open spec fn forced(will_pause: bool) -> IterationSpeed {
        if will_pause {
            IterationSpeed::Paused
        } else {
            IterationSpeed::Regular
        }
    }

    /// The speed `steps` increases after `self`.
    pub open spec fn faster_by(self, steps: nat) -> IterationSpeed
        decreases steps,
    {
        if steps == 0 {
            self
        } else {
            self.faster().faster_by((steps - 1) as nat)
        }
    }

    /// The speed `steps` decreases after `self`.
    pub open spec fn slower_by(self, steps: nat) -> IterationSpeed
        decreases steps,
    {
        if steps == 0 {
            self
        } else {
            self.slower().slower_by((steps - 1) as nat)
        }
    }

    /// The next higher speed; `VeryFast` stays what it is.
    pub fn next_faster(&self) -> (speed: IterationSpeed)
        ensures
            speed == self.faster(),
    {
        match self {
            IterationSpeed::Paused => IterationSpeed::VerySlow,
            IterationSpeed::VerySlow => IterationSpeed::Slow,
            IterationSpeed::Slow => IterationSpeed::Regular,
            IterationSpeed::Regular => IterationSpeed::Fast,
            IterationSpeed::Fast => IterationSpeed::VeryFast,
            IterationSpeed::VeryFast => IterationSpeed::VeryFast,
        }
    }

    /// The next lower speed; `Paused` stays what it is.
    pub fn next_slower(&self) -> (speed: IterationSpeed)
        ensures
            speed == self.slower(),
    {
        match self {
            IterationSpeed::Paused => IterationSpeed::Paused,
            IterationSpeed::VerySlow => IterationSpeed::Paused,
            IterationSpeed::Slow => IterationSpeed::VerySlow,
            IterationSpeed::Regular => IterationSpeed::Slow,
            IterationSpeed::Fast => IterationSpeed::Regular,
            IterationSpeed::VeryFast => IterationSpeed::Fast,
        }
    }
}

/// Speeds change one rank at a time and stop at both ends of the order.
pub proof fn lemma_speed_changes_saturate(speed: IterationSpeed)
    ensures
        speed.faster().rank() == if speed.rank() < 5 {
            speed.rank() + 1
        } else {
            5
        },
        speed.slower().rank() == if speed.rank() > 0 {
            speed.rank() - 1
        } else {
            0
        },
        IterationSpeed::VeryFast.faster() == IterationSpeed::VeryFast,
        IterationSpeed::Paused.slower() == IterationSpeed::Paused,
{
}

/// Repeated increases climb the order of speeds and stay at `VeryFast` once
/// they have reached it.
pub proof fn lemma_increases_reach_the_top(speed: IterationSpeed, steps: nat)
    ensures
        speed.faster_by(steps).rank() == if speed.rank() + steps < 5 {
            speed.rank() + steps
        } else {
            5
        },
    decreases steps,
{
    if steps > 0 {
        lemma_increases_reach_the_top(speed.faster(), (steps - 1) as nat);
    }
}

/// Repeated decreases descend the order of speeds and stay at `Paused` once
/// they have reached it.
pub proof fn lemma_decreases_reach_the_bottom(speed: IterationSpeed, steps: nat)
    ensures
        speed.slower_by(steps).rank() == if speed.rank() - steps > 0 {
            speed.rank() - steps
        } else {
            0
        },
    decreases steps,
{
    if steps > 0 {
        lemma_decreases_reach_the_bottom(speed.slower(), (steps - 1) as nat);
    }
}

/// One second.
pub const NANOS_PER_SECOND: u64 = 1_000_000_000;

/// Interval of `VerySlow` unless configured otherwise: 8 s.
pub const DEFAULT_VERY_SLOW_DURATION: u64 = 8_000_000_000;

/// Interval of `Slow` unless configured otherwise: 4 s.
pub const DEFAULT_SLOW_DURATION: u64 = 4_000_000_000;

/// Interval of `Regular` unless configured otherwise: 2 s.
pub const DEFAULT_REGULAR_DURATION: u64 = 2_000_000_000;

/// Interval of `Fast` unless configured otherwise: 0.5 s.
pub const DEFAULT_FAST_DURATION: u64 = 500_000_000;

/// Interval of `VeryFast` unless configured otherwise: 0.1 s.
pub const DEFAULT_VERY_FAST_DURATION: u64 = 100_000_000;

/// The interval between two generations at each speed that has one. Every
/// interval of a table is positive.
#[derive(Clone, Copy, Debug, PartialEq, Eq)]
pub struct DurationTable {
    very_slow_duration: u64,
    slow_duration: u64,
    regular_duration: u64,
    fast_duration: u64,
    very_fast_duration: u64,
}

impl DurationTable {
    #[verifier::type_invariant]
    spec fn all_positive(self) -> bool {
        &&& self.very_slow_duration > 0
        &&& self.slow_duration > 0
        &&& self.regular_duration > 0
        &&& self.fast_duration > 0
        &&& self.very_fast_duration > 0
    }

    /// The interval of `speed`; `Paused` has none, since a paused
    /// simulation never takes a turn.
    pub closed spec fn duration_of(self, speed: IterationSpeed) -> Option<u64> {
        match speed {
            IterationSpeed::Paused => None,
            IterationSpeed::VerySlow => Some(self.very_slow_duration),
            IterationSpeed::Slow => Some(self.slow_duration),
            IterationSpeed::Regular => Some(self.regular_duration),
            IterationSpeed::Fast => Some(self.fast_duration),
            IterationSpeed::VeryFast => Some(self.very_fast_duration),
        }
    }

    /// A table of the five given intervals, each of which must be positive.
    pub fn new(
        very_slow_duration: u64,
        slow_duration: u64,
        regular_duration: u64,
        fast_duration: u64,
        very_fast_duration: u64,
    ) -> (made: Result<DurationTable, InvalidConfiguration>)
        ensures
            made is Ok <==> very_slow_duration > 0 && slow_duration > 0 && regular_duration > 0
                && fast_duration > 0 && very_fast_duration > 0,
            made matches Ok(table) ==> {
                &&& table.duration_of(IterationSpeed::Paused) is None
                &&& table.duration_of(IterationSpeed::VerySlow) == Some(very_slow_duration)
                &&& table.duration_of(IterationSpeed::Slow) == Some(slow_duration)
                &&& table.duration_of(IterationSpeed::Regular) == Some(regular_duration)
                &&& table.duration_of(IterationSpeed::Fast) == Some(fast_duration)
                &&& table.duration_of(IterationSpeed::VeryFast) == Some(very_fast_duration)
            },
    {
        if very_slow_duration == 0 || slow_duration == 0 || regular_duration == 0 || fast_duration
            == 0 || very_fast_duration == 0 {
            Err(InvalidConfiguration)
        } else {
            Ok(
                DurationTable {
                    very_slow_duration,
                    slow_duration,
                    regular_duration,
                    fast_duration,
                    very_fast_duration,
                },
            )
        }
    }

    /// The interval of `speed`, or `None` for `Paused`.
    pub fn lookup(&self, speed: IterationSpeed) -> (duration: Option<u64>)
        ensures
            duration == self.duration_of(speed),
            duration is None <==> speed == IterationSpeed::Paused,
            duration matches Some(nanos) ==> nanos > 0,
    {
        proof {
            use_type_invariant(self);
        }
        match speed {
            IterationSpeed::Paused => None,
            IterationSpeed::VerySlow => Some(self.very_slow_duration),
            IterationSpeed::Slow => Some(self.slow_duration),
            IterationSpeed::Regular => Some(self.regular_duration),
            IterationSpeed::Fast => Some(self.fast_duration),
            IterationSpeed::VeryFast => Some(self.very_fast_duration),
        }
    }
}

impl Default for DurationTable {
    fn default() -> (table: DurationTable)
        ensures
            table.duration_of(IterationSpeed::Paused) is None,
            table.duration_of(IterationSpeed::VerySlow) == Some(DEFAULT_VERY_SLOW_DURATION),
            table.duration_of(IterationSpeed::Slow) == Some(DEFAULT_SLOW_DURATION),
            table.duration_of(IterationSpeed::Regular) == Some(DEFAULT_REGULAR_DURATION),
            table.duration_of(IterationSpeed::Fast) == Some(DEFAULT_FAST_DURATION),
            table.duration_of(IterationSpeed::VeryFast) == Some(DEFAULT_VERY_FAST_DURATION),
    {
        DurationTable {
            very_slow_duration: DEFAULT_VERY_SLOW_DURATION,
            slow_duration: DEFAULT_SLOW_DURATION,
            regular_duration: DEFAULT_REGULAR_DURATION,
            fast_duration: DEFAULT_FAST_DURATION,
            very_fast_duration: DEFAULT_VERY_FAST_DURATION,
        }
    }
}

/// The speed controller: the selected speed and the table that resolves it
/// to an interval. Control events change the selection and leave the table
/// alone.
#[derive(Clone, Copy, Debug, PartialEq, Eq)]
pub struct SpeedConfiguration {
    pub current_speed: IterationSpeed,
    pub durations: DurationTable,
}

impl SpeedConfiguration {
    /// The interval that the selected speed resolves to; `None` while
    /// paused.
    pub open spec fn interval(self) -> Option<u64> {
        self.durations.duration_of(self.current_speed)
    }

    /// A controller at `Regular` speed that resolves speeds by `durations`.
    pub fn new(durations: DurationTable) -> (configuration: SpeedConfiguration)
        ensures
            configuration.current_speed == IterationSpeed::Regular,
            configuration.durations == durations,
    {
        SpeedConfiguration { current_speed: IterationSpeed::Regular, durations }
    }

    /// The interval that the selected speed resolves to, or `None` while
    /// paused.
    pub fn resolved_interval(&self) -> (duration: Option<u64>)
        ensures
            duration == self.interval(),
            duration is None <==> self.current_speed == IterationSpeed::Paused,
            duration matches Some(nanos) ==> nanos > 0,
    {
        self.durations.lookup(self.current_speed)
    }

    /// Selects the next higher speed. At `VeryFast` nothing changes.
    pub fn increase_speed(&mut self)
        ensures
            final(self).current_speed == old(self).current_speed.faster(),
            final(self).durations == old(self).durations,
    {
        self.current_speed = self.current_speed.next_faster();
    }

    /// Selects the next lower speed. At `Paused` nothing changes.
    pub fn decrease_speed(&mut self)
        ensures
            final(self).current_speed == old(self).current_speed.slower(),
            final(self).durations == old(self).durations,
    {
        self.current_speed = self.current_speed.next_slower();
    }

    /// Pauses the simulation, or resumes it at `Regular` speed. The speed
    /// that was selected before a pause is not kept.
    pub fn set_paused(&mut self, will_pause: bool)
        ensures
            final(self).current_speed == IterationSpeed::forced(will_pause),
            final(self).durations == old(self).durations,
    {
        if will_pause {
            self.current_speed = IterationSpeed::Paused;
        } else {
            self.current_speed = IterationSpeed::Regular;
        }
    }

    /// Pauses a running simulation and resumes a paused one at `Regular`
    /// speed.
    pub fn toggle_pause(&mut self)
        ensures
            final(self).current_speed == old(self).current_speed.toggled(),
            final(self).durations == old(self).durations,
    {
        match self.current_speed {
            IterationSpeed::Paused => {
                self.current_speed = IterationSpeed::Regular;
            },
            _ => {
                self.current_speed = IterationSpeed::Paused;
            },
        }
    }
}

impl Default for SpeedConfiguration {
    fn default() -> (configuration: SpeedConfiguration)
        ensures
            configuration.current_speed == IterationSpeed::Regular,
            configuration.interval() == Some(DEFAULT_REGULAR_DURATION),
            configuration.durations.duration_of(IterationSpeed::VerySlow) == Some(
                DEFAULT_VERY_SLOW_DURATION,
            ),
            configuration.durations.duration_of(IterationSpeed::Slow) == Some(
                DEFAULT_SLOW_DURATION,
            ),
            configuration.durations.duration_of(IterationSpeed::Regular) == Some(
                DEFAULT_REGULAR_DURATION,
            ),
            configuration.durations.duration_of(IterationSpeed::Fast) == Some(
                DEFAULT_FAST_DURATION,
            ),
            configuration.durations.duration_of(IterationSpeed::VeryFast) == Some(
                DEFAULT_VERY_FAST_DURATION,
            ),
    {
        SpeedConfiguration::new(DurationTable::default())
    }
}

} // verus!
