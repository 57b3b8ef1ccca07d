use game_of_life::speed::{DurationTable, IterationSpeed, SpeedConfiguration};
use game_of_life::tick::{
    set_tick_timer_duration_to_iteration_speed, TickTimer, INITIAL_TICK_DURATION,
};

const SECOND: u64 = 1_000_000_000;

#[test]
fn new_timer_runs_and_has_gathered_nothing() {
    let timer = TickTimer::new(2 * SECOND);
    assert_eq!(timer.elapsed(), 0);
    assert_eq!(timer.duration(), 2 * SECOND);
    assert!(!timer.paused());
    assert!(!timer.just_finished());
}

#[test]
fn initial_duration_is_half_a_second() {
    assert_eq!(INITIAL_TICK_DURATION, 500_000_000);
}

#[test]
fn two_halves_of_the_interval_make_one_turn() {
    let mut timer = TickTimer::new(2 * SECOND);
    assert!(!timer.advance(SECOND));
    assert!(!timer.just_finished());
    assert_eq!(timer.elapsed(), SECOND);
    assert!(timer.advance(SECOND));
    assert!(timer.just_finished());
    assert_eq!(timer.elapsed(), 0);
}

#[test]
fn overshoot_is_dropped() {
    let mut timer = TickTimer::new(2 * SECOND);
    assert!(timer.advance(5 * SECOND));
    assert_eq!(timer.elapsed(), 0);
    assert!(!timer.advance(0));
    assert!(!timer.just_finished());
    assert_eq!(timer.elapsed(), 0);
}

#[test]
fn one_advance_is_one_turn_at_most() {
    let mut timer = TickTimer::new(SECOND);
    assert!(timer.advance(10 * SECOND));
    assert!(!timer.advance(SECOND - 1));
    assert!(timer.advance(1));
}

#[test]
fn turn_comes_exactly_at_the_interval() {
    let mut timer = TickTimer::new(100);
    assert!(!timer.advance(99));
    assert!(timer.advance(1));
    let mut timer = TickTimer::new(100);
    assert!(timer.advance(100));
}

#[test]
fn just_finished_lasts_one_advance() {
    let mut timer = TickTimer::new(100);
    timer.advance(100);
    assert!(timer.just_finished());
    timer.advance(1);
    assert!(!timer.just_finished());
    assert_eq!(timer.elapsed(), 1);
}

#[test]
fn timer_repeats() {
    let mut timer = TickTimer::new(3);
    let turns: Vec<bool> = (0..9).map(|_| timer.advance(1)).collect();
    assert_eq!(turns, vec![false, false, true, false, false, true, false, false, true]);
}

#[test]
fn paused_timer_reports_no_turn() {
    let mut timer = TickTimer::new(2 * SECOND);
    timer.pause();
    assert!(timer.paused());
    assert!(!timer.advance(SECOND));
    assert!(!timer.advance(5 * SECOND));
    assert!(!timer.advance(u64::MAX));
    assert!(!timer.just_finished());
}

#[test]
fn paused_timer_clears_nothing() {
    let mut timer = TickTimer::new(2 * SECOND);
    timer.advance(SECOND);
    timer.pause();
    timer.advance(SECOND / 2);
    assert_eq!(timer.elapsed(), SECOND + SECOND / 2);
    assert_eq!(timer.duration(), 2 * SECOND);
}

#[test]
fn timer_reports_the_turn_it_gathered_while_paused() {
    let mut timer = TickTimer::new(2 * SECOND);
    timer.pause();
    assert!(!timer.advance(3 * SECOND));
    timer.unpause();
    assert!(!timer.paused());
    assert!(timer.advance(0));
    assert_eq!(timer.elapsed(), 0);
}

#[test]
fn pausing_clears_just_finished_at_the_next_advance_only() {
    let mut timer = TickTimer::new(10);
    timer.advance(10);
    timer.pause();
    assert!(timer.just_finished());
    timer.advance(0);
    assert!(!timer.just_finished());
}

#[test]
fn gathered_time_stops_at_the_largest_value() {
    let mut timer = TickTimer::new(10);
    timer.pause();
    timer.advance(u64::MAX - 1);
    timer.advance(5);
    assert_eq!(timer.elapsed(), u64::MAX);
    timer.unpause();
    assert!(timer.advance(7));
    assert_eq!(timer.elapsed(), 0);
}

#[test]
fn turn_is_reported_where_the_sum_is_beyond_the_largest_value() {
    let mut timer = TickTimer::new(u64::MAX);
    assert!(!timer.advance(u64::MAX - 1));
    assert!(timer.advance(u64::MAX));
    assert_eq!(timer.elapsed(), 0);
}

#[test]
fn timer_of_no_duration_reports_a_turn_at_every_advance() {
    let mut timer = TickTimer::new(0);
    assert!(timer.advance(0));
    assert!(timer.advance(0));
    assert!(timer.advance(1));
}

#[test]
fn new_duration_counts_from_the_next_advance() {
    let mut timer = TickTimer::new(2 * SECOND);
    timer.advance(SECOND);
    timer.set_duration(SECOND / 2);
    assert_eq!(timer.elapsed(), SECOND);
    assert!(!timer.just_finished());
    assert!(timer.advance(0));
}

#[test]
fn longer_duration_keeps_what_has_been_gathered() {
    let mut timer = TickTimer::new(SECOND);
    timer.advance(SECOND / 2);
    timer.set_duration(2 * SECOND);
    assert!(!timer.advance(SECOND));
    assert_eq!(timer.elapsed(), SECOND + SECOND / 2);
    assert!(timer.advance(SECOND / 2));
}

#[test]
fn speed_sets_the_duration_of_the_timer() {
    let mut configuration = SpeedConfiguration::default();
    let expected = [
        (IterationSpeed::VerySlow, 8 * SECOND),
        (IterationSpeed::Slow, 4 * SECOND),
        (IterationSpeed::Regular, 2 * SECOND),
        (IterationSpeed::Fast, SECOND / 2),
        (IterationSpeed::VeryFast, SECOND / 10),
    ];
    for (speed, duration) in expected {
        let mut timer = TickTimer::new(INITIAL_TICK_DURATION);
        timer.pause();
        configuration.current_speed = speed;
        set_tick_timer_duration_to_iteration_speed(&configuration, &mut timer);
        assert_eq!(timer.duration(), duration);
        assert!(!timer.paused());
    }
}

#[test]
fn paused_speed_pauses_the_timer_and_keeps_its_duration() {
    let mut configuration = SpeedConfiguration::default();
    configuration.current_speed = IterationSpeed::Paused;
    let mut timer = TickTimer::new(7);
    timer.advance(3);
    set_tick_timer_duration_to_iteration_speed(&configuration, &mut timer);
    assert!(timer.paused());
    assert_eq!(timer.duration(), 7);
    assert_eq!(timer.elapsed(), 3);
}

#[test]
fn applying_a_speed_keeps_the_gathered_time() {
    let table = DurationTable::new(50, 40, 30, 20, 10).unwrap();
    let mut configuration = SpeedConfiguration::new(table);
    configuration.current_speed = IterationSpeed::Slow;
    let mut timer = TickTimer::new(30);
    timer.advance(30);
    timer.advance(12);
    set_tick_timer_duration_to_iteration_speed(&configuration, &mut timer);
    assert_eq!(timer.elapsed(), 12);
    assert_eq!(timer.duration(), 40);
    assert!(!timer.just_finished());
    let once = timer;
    set_tick_timer_duration_to_iteration_speed(&configuration, &mut timer);
    assert_eq!(timer, once);
}
