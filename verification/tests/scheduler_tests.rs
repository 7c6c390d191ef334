use lazy_eye::scheduler::{Scheduler, Timing};

fn ticks_fired(scheduler: &mut Scheduler, units: u64) -> u64 {
    let mut fired = 0;
    for _ in 0..units {
        if scheduler.tick() {
            fired += 1;
        }
    }
    fired
}

#[test]
fn there_is_no_timer_for_an_interval_of_zero() {
    assert!(Scheduler::new(0).is_none());
    assert!(Scheduler::new(1).is_some());
}

#[test]
fn a_new_timer_has_not_fired_and_is_not_stopped() {
    let scheduler = Scheduler::new(60).unwrap();
    assert_eq!(scheduler.interval(), 60);
    assert_eq!(scheduler.phase(), 0);
    assert!(!scheduler.is_stopped());
}

#[test]
fn the_first_firing_comes_one_interval_after_the_start() {
    let mut scheduler = Scheduler::new(3).unwrap();
    assert!(!scheduler.tick());
    assert!(!scheduler.tick());
    assert!(scheduler.tick());
    assert!(!scheduler.tick());
    assert!(!scheduler.tick());
    assert!(scheduler.tick());
}

#[test]
fn an_interval_of_one_fires_on_every_tick() {
    let mut scheduler = Scheduler::new(1).unwrap();
    for _ in 0..10 {
        assert!(scheduler.tick());
        assert_eq!(scheduler.phase(), 0);
    }
}

#[test]
fn ticks_fire_floor_of_elapsed_over_interval_times() {
    for interval in 1..=12u64 {
        for elapsed in 0..=50u64 {
            let mut scheduler = Scheduler::new(interval).unwrap();
            assert_eq!(ticks_fired(&mut scheduler, elapsed), elapsed / interval);
            assert_eq!(scheduler.phase(), elapsed % interval);
        }
    }
}

#[test]
fn advance_fires_floor_of_elapsed_over_interval_times() {
    let mut scheduler = Scheduler::new(7).unwrap();
    assert_eq!(scheduler.advance(100), 14);
    assert_eq!(scheduler.phase(), 2);
    assert_eq!(scheduler.advance(4), 0);
    assert_eq!(scheduler.phase(), 6);
    assert_eq!(scheduler.advance(1), 1);
    assert_eq!(scheduler.phase(), 0);
    assert_eq!(scheduler.advance(0), 0);
    assert_eq!(scheduler.phase(), 0);
}

#[test]
fn advance_agrees_with_single_ticks() {
    for interval in 1..=9u64 {
        for before in 0..=10u64 {
            for units in 0..=30u64 {
                let mut stepwise = Scheduler::new(interval).unwrap();
                let mut at_once = Scheduler::new(interval).unwrap();
                ticks_fired(&mut stepwise, before);
                at_once.advance(before);
                assert_eq!(at_once.advance(units), ticks_fired(&mut stepwise, units));
                assert_eq!(at_once.phase(), stepwise.phase());
            }
        }
    }
}

#[test]
fn advance_copes_with_the_largest_numbers() {
    let mut every_unit = Scheduler::new(1).unwrap();
    assert_eq!(every_unit.advance(u64::MAX), u64::MAX);
    assert_eq!(every_unit.phase(), 0);

    let mut rare = Scheduler::new(u64::MAX).unwrap();
    assert_eq!(rare.advance(u64::MAX - 1), 0);
    assert_eq!(rare.phase(), u64::MAX - 1);
    assert_eq!(rare.advance(u64::MAX), 1);
    assert_eq!(rare.phase(), u64::MAX - 1);
    assert!(rare.tick());
    assert_eq!(rare.phase(), 0);

    let mut half = Scheduler::new(1 << 63).unwrap();
    assert_eq!(half.advance((1 << 63) - 1), 0);
    assert_eq!(half.advance(u64::MAX), 2);
    assert_eq!(half.phase(), (1 << 63) - 2);
}

#[test]
fn a_stopped_timer_never_fires_again() {
    for stop_at in 0..=6u64 {
        let mut scheduler = Scheduler::new(3).unwrap();
        let before = ticks_fired(&mut scheduler, stop_at);
        assert_eq!(before, stop_at / 3);
        let phase = scheduler.phase();
        scheduler.stop();
        assert!(scheduler.is_stopped());
        assert_eq!(ticks_fired(&mut scheduler, 20), 0);
        assert_eq!(scheduler.advance(1_000), 0);
        assert_eq!(scheduler.phase(), phase);
    }
}

#[test]
fn a_stop_just_before_the_due_tick_suppresses_it() {
    let mut scheduler = Scheduler::new(2).unwrap();
    assert!(!scheduler.tick());
    scheduler.stop();
    assert!(!scheduler.tick());
    assert!(!scheduler.tick());
}

#[test]
fn stopping_twice_is_stopping_once() {
    let mut scheduler = Scheduler::new(2).unwrap();
    scheduler.stop();
    scheduler.stop();
    assert!(scheduler.is_stopped());
    assert_eq!(scheduler.interval(), 2);
    assert_eq!(scheduler.phase(), 0);
}

#[test]
fn the_default_timing_is_a_reminder_every_minute() {
    let timing = Timing::default();
    assert_eq!(timing.interval(), 1);
    assert_eq!(timing.tick_minutes(), 1);
    assert_eq!(timing.poll_millis(), 100);
}

#[test]
fn a_timing_holds_no_zero() {
    assert!(Timing::new(0, 1, 100).is_none());
    assert!(Timing::new(20, 0, 100).is_none());
    assert!(Timing::new(20, 1, 0).is_none());
    let timing = Timing::new(20, 1, 250).unwrap();
    assert_eq!(timing.interval(), 20);
    assert_eq!(timing.tick_minutes(), 1);
    assert_eq!(timing.poll_millis(), 250);
    assert_eq!(Timing::new(1, 1, 100), Some(Timing::default()));
}
