use truenorth::heading::{heading_distance, HeadingTracker, HEADING_HYSTERESIS};

#[test]
fn wraparound_distance() {
    assert_eq!(heading_distance(359, 1), 2);
    assert_eq!(heading_distance(1, 359), 2);
    assert_eq!(heading_distance(10, 190), 180);
    assert_eq!(heading_distance(0, 0), 0);
    assert_eq!(heading_distance(0, 359), 1);
    assert_eq!(heading_distance(90, 270), 180);
}

#[test]
fn hysteresis_emits_once_for_jitter() {
    // From the initial last-emitted heading of 0, the first value past the
    // threshold emits; 11, 9 and 10 all sit within 2 degrees of the emitted
    // 10 and stay silent.
    let mut tracker = HeadingTracker::new();
    assert_eq!(tracker.observe(10), Some(10));
    assert_eq!(tracker.observe(11), None);
    assert_eq!(tracker.observe(9), None);
    assert_eq!(tracker.observe(10), None);
    // A jump far away always emits.
    assert_eq!(tracker.observe(50), Some(50));
    assert_eq!(tracker.last, 50);
}

#[test]
fn hysteresis_threshold_is_strict() {
    let mut tracker = HeadingTracker::new();
    assert_eq!(HEADING_HYSTERESIS, 2);
    assert_eq!(tracker.observe(2), None);
    assert_eq!(tracker.observe(3), Some(3));
}

#[test]
fn negative_headings_normalize() {
    let mut tracker = HeadingTracker::new();
    assert_eq!(tracker.observe(-90), Some(270));
    assert_eq!(tracker.last, 270);
    assert_eq!(tracker.observe(-180), Some(180));
    assert_eq!(tracker.observe(180), None);
}

#[test]
fn hysteresis_works_across_the_zero_boundary() {
    let mut tracker = HeadingTracker::new();
    // 359 is only 1 degree from 0 the short way around: no emission.
    assert_eq!(tracker.observe(-1), None);
    // 357 is 3 degrees away: emit.
    assert_eq!(tracker.observe(-3), Some(357));
}
