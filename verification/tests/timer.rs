use pong::timer::Countdown;

#[test]
fn fresh_countdown_stands_at_zero() {
    let c = Countdown::new(3_000_000_000);
    assert_eq!(c, Countdown { elapsed: 0, duration: 3_000_000_000, finished: false });
    assert!(!c.finished());
}

#[test]
fn countdown_adds_up_the_ticks() {
    let mut c = Countdown::new(3_000_000_000);
    c.tick(1_000_000_000);
    assert_eq!(c, Countdown { elapsed: 1_000_000_000, duration: 3_000_000_000, finished: false });
    c.tick(1_999_999_999);
    assert_eq!(c, Countdown { elapsed: 2_999_999_999, duration: 3_000_000_000, finished: false });
    assert!(!c.finished());
}

#[test]
fn countdown_finishes_when_it_reaches_its_duration() {
    let mut c = Countdown::new(3_000_000_000);
    c.tick(2_999_999_999);
    c.tick(1);
    assert_eq!(c, Countdown { elapsed: 3_000_000_000, duration: 3_000_000_000, finished: true });
    assert!(c.finished());
}

#[test]
fn countdown_stops_at_its_duration() {
    let mut c = Countdown::new(3_000_000_000);
    c.tick(5_000_000_000);
    assert_eq!(c, Countdown { elapsed: 3_000_000_000, duration: 3_000_000_000, finished: true });
    c.tick(7);
    assert_eq!(c, Countdown { elapsed: 3_000_000_000, duration: 3_000_000_000, finished: true });
    let mut long = Countdown::new(10);
    long.tick(u64::MAX);
    assert_eq!(long, Countdown { elapsed: 10, duration: 10, finished: true });
}

#[test]
fn tick_of_no_time_changes_nothing() {
    let mut c = Countdown::new(3_000_000_000);
    c.tick(0);
    assert_eq!(c, Countdown::new(3_000_000_000));
    c.tick(12);
    c.tick(0);
    assert_eq!(c, Countdown { elapsed: 12, duration: 3_000_000_000, finished: false });
}

#[test]
fn countdown_of_no_time_finishes_on_its_first_tick() {
    let mut c = Countdown::new(0);
    assert!(!c.finished());
    c.tick(0);
    assert_eq!(c, Countdown { elapsed: 0, duration: 0, finished: true });
}

#[test]
fn countdown_near_the_end_of_the_range() {
    let mut c = Countdown { elapsed: u64::MAX - 1, duration: u64::MAX, finished: false };
    c.tick(u64::MAX);
    assert_eq!(c, Countdown { elapsed: u64::MAX, duration: u64::MAX, finished: true });
    let mut d = Countdown { elapsed: u64::MAX - 2, duration: u64::MAX, finished: false };
    d.tick(1);
    assert_eq!(d, Countdown { elapsed: u64::MAX - 1, duration: u64::MAX, finished: false });
}
