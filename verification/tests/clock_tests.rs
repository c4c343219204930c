use clock::clock::Clock;

#[test]
fn new_yields_canonical_fields() {
    let samples: Vec<(i32, i32)> = vec![
        (0, 0),
        (23, 59),
        (24, 60),
        (-1, -1),
        (25, 160),
        (-25, -160),
        (100, 3000),
        (-100, -3000),
        (9999, -9999),
        (-9999, 9999),
    ];
    for (h, m) in samples {
        let c = Clock::new(h, m);
        assert!(0 <= c.hours && c.hours <= 23, "hours out of range for ({h}, {m})");
        assert!(0 <= c.minutes && c.minutes <= 59, "minutes out of range for ({h}, {m})");
    }
}

#[test]
fn normalize_is_idempotent_on_canonical_values() {
    let c = Clock::new(13, 42);
    assert_eq!(c.normalize(), c);
    let midnight = Clock::new(0, 0);
    assert_eq!(midnight.normalize(), midnight);
    let last = Clock::new(23, 59);
    assert_eq!(last.normalize(), last);
}

#[test]
fn format_conversion_round_trips() {
    let c = Clock::new(17, 35);
    assert_eq!(c.as_twelve_hour_clock().as_twenty_four_hour_clock(), c);
    let midnight = Clock::new(0, 0);
    assert_eq!(midnight.as_twelve_hour_clock().as_twenty_four_hour_clock(), midnight);
}

#[test]
fn addition_is_consistent_with_construction() {
    let sum = Clock::new(14, 55).add(Clock::new(34, 155));
    assert_eq!(sum, Clock::new(14 + 34, 55 + 155));
    let sum = Clock::new(-3, -70).add(Clock::new(5, 20));
    assert_eq!(sum, Clock::new(2, -50));
}

#[test]
fn integer_conversion_counts_minutes_from_midnight() {
    let from_int = Clock::from(2055);
    assert_eq!(from_int, Clock::new(0, 2055));
    assert_eq!(from_int.hours, 10);
    assert_eq!(from_int.minutes, 15);
    assert_eq!(from_int.display_string(), "10:15");
}

#[test]
fn adding_two_clocks_displays_wrapped_sum() {
    let sum = Clock::new(14, 55).add(Clock::new(34, 155));
    assert_eq!(sum.hours, 3);
    assert_eq!(sum.minutes, 30);
    assert_eq!(sum.display_string(), "03:30");
}

#[test]
fn default_plus_minutes_displays_as_twelve_hour() {
    let default_clock: Clock = Default::default();
    assert_eq!(default_clock.hours, 0);
    assert_eq!(default_clock.minutes, 0);
    let clock = default_clock.add_minutes(1055);
    assert_eq!(clock.hours, 17);
    assert_eq!(clock.minutes, 35);
    assert_eq!(clock.as_twelve_hour_clock().display_string(), "05:35 p.m.");
}

#[test]
fn into_clock_displays_wrapped_minutes() {
    let clock: Clock = 2055.into();
    assert_eq!(clock.hours, 10);
    assert_eq!(clock.minutes, 15);
    assert_eq!(clock.display_string(), "10:15");
}

#[test]
fn negative_minute_borrows_an_hour() {
    let c = Clock::new(0, -1);
    assert_eq!(c.hours, 23);
    assert_eq!(c.minutes, 59);
    assert_eq!(c.display_string(), "23:59");
}

#[test]
fn negative_hours_wrap_around() {
    let c = Clock::new(-1, 0);
    assert_eq!(c.hours, 23);
    assert_eq!(c.minutes, 0);
    let c = Clock::new(-25, -160);
    assert_eq!(c, Clock::new(-25 - 3, 20));
    assert_eq!(c.hours, 20);
    assert_eq!(c.minutes, 20);
}

#[test]
fn add_minutes_accepts_negative_offsets() {
    let c = Clock::new(10, 0);
    let earlier = c.add_minutes(-90);
    assert_eq!(earlier.hours, 8);
    assert_eq!(earlier.minutes, 30);
    // the receiver is unchanged
    assert_eq!(c.hours, 10);
    assert_eq!(c.minutes, 0);
}

#[test]
fn twenty_four_hour_display_zero_pads() {
    assert_eq!(Clock::new(0, 0).display_string(), "00:00");
    assert_eq!(Clock::new(9, 5).display_string(), "09:05");
    assert_eq!(Clock::new(23, 59).display_string(), "23:59");
}

#[test]
fn twelve_hour_display_follows_branch_table() {
    // midnight keeps hour 00 under the a.m. branch
    assert_eq!(Clock::new(0, 30).as_twelve_hour_clock().display_string(), "00:30 a.m.");
    assert_eq!(Clock::new(11, 59).as_twelve_hour_clock().display_string(), "11:59 a.m.");
    assert_eq!(Clock::new(12, 0).as_twelve_hour_clock().display_string(), "12:00 p.m.");
    assert_eq!(Clock::new(13, 7).as_twelve_hour_clock().display_string(), "01:07 p.m.");
    assert_eq!(Clock::new(23, 59).as_twelve_hour_clock().display_string(), "11:59 p.m.");
}
