use greenhouse::schedule::{Interval, DEFAULT_PERIOD};

#[test]
fn the_default_period_is_a_minute() {
    assert_eq!(DEFAULT_PERIOD, 60_000);
}

#[test]
fn there_is_no_timer_of_period_zero() {
    assert!(Interval::new(0, 0).is_none());
    assert!(Interval::new(5, 0).is_none());
    assert!(Interval::new(0, 1).is_some());
}

#[test]
fn a_new_timer_is_due_at_its_start() {
    let mut timer = Interval::new(250, 1_000).unwrap();
    assert_eq!(timer.period(), 1_000);
    assert_eq!(timer.next_due(), 250);
    assert!(!timer.tick(0));
    assert!(!timer.tick(249));
    assert_eq!(timer.next_due(), 250);
    assert!(timer.tick(250));
    assert_eq!(timer.next_due(), 1_250);
    assert_eq!(timer.period(), 1_000);
}

#[test]
fn a_timer_fires_once_per_period() {
    let mut timer = Interval::new(0, DEFAULT_PERIOD).unwrap();
    assert!(timer.tick(0));
    assert_eq!(timer.next_due(), 60_000);
    assert!(!timer.tick(1));
    assert!(!timer.tick(59_999));
    assert!(timer.tick(60_000));
    assert_eq!(timer.next_due(), 120_000);
    assert!(!timer.tick(60_000));
    assert!(timer.tick(120_003));
    assert_eq!(timer.next_due(), 180_000);
}

#[test]
fn a_late_timer_fires_once_and_drops_the_ticks_it_missed() {
    let mut timer = Interval::new(0, 60_000).unwrap();
    assert!(timer.tick(0));
    // Asked again only after three and a half periods.
    assert!(timer.tick(210_000));
    assert_eq!(timer.next_due(), 240_000);
    assert!(!timer.tick(210_001));
    assert!(!timer.tick(239_999));
    assert!(timer.tick(240_000));
    assert_eq!(timer.next_due(), 300_000);
}

#[test]
fn the_next_due_instant_stays_on_the_grid() {
    let mut timer = Interval::new(7, 10).unwrap();
    assert!(timer.tick(7));
    assert_eq!(timer.next_due(), 17);
    assert!(timer.tick(16 + 1));
    assert_eq!(timer.next_due(), 27);
    assert!(timer.tick(36));
    assert_eq!(timer.next_due(), 37);
    assert!(timer.tick(37));
    assert_eq!(timer.next_due(), 47);
    assert!(timer.tick(1_000_006));
    assert_eq!(timer.next_due(), 1_000_007);
}

#[test]
fn a_timer_of_period_one_is_due_at_every_later_instant() {
    let mut timer = Interval::new(0, 1).unwrap();
    assert!(timer.tick(5));
    assert_eq!(timer.next_due(), 6);
    assert!(!timer.tick(5));
    assert!(timer.tick(6));
    assert_eq!(timer.next_due(), 7);
}

#[test]
fn the_due_instant_stops_at_the_end_of_the_clock() {
    let mut timer = Interval::new(0, u64::MAX).unwrap();
    assert!(timer.tick(0));
    assert_eq!(timer.next_due(), u64::MAX);
    assert!(!timer.tick(u64::MAX - 1));
    assert!(timer.tick(u64::MAX));
    assert_eq!(timer.next_due(), u64::MAX);

    let mut timer = Interval::new(u64::MAX - 5, 10).unwrap();
    assert!(timer.tick(u64::MAX - 5));
    assert_eq!(timer.next_due(), u64::MAX);

    let mut timer = Interval::new(u64::MAX - 10, 10).unwrap();
    assert!(timer.tick(u64::MAX - 10));
    assert_eq!(timer.next_due(), u64::MAX);
    let mut timer = Interval::new(u64::MAX - 11, 10).unwrap();
    assert!(timer.tick(u64::MAX - 11));
    assert_eq!(timer.next_due(), u64::MAX - 1);
}
