use truenorth::calib::CalibrationBounds;
use truenorth::math::Vector3;

#[test]
fn bounds_widen_per_axis_and_fire_only_on_change() {
    let mut bounds = CalibrationBounds::new();
    // Every one of these three samples moves at least one bound, so each
    // must fire a change; the final bounds are the per-axis extremes.
    assert!(bounds.update(Vector3::new(1, 2, 3)));
    assert!(bounds.update(Vector3::new(5, 1, 0)));
    assert!(bounds.update(Vector3::new(-2, 4, 6)));
    assert_eq!((bounds.max_x, bounds.max_y, bounds.max_z), (5, 4, 6));
    assert_eq!((bounds.min_x, bounds.min_y, bounds.min_z), (-2, 1, 0));
    // A sample inside the bounds changes nothing and must not fire.
    assert!(!bounds.update(Vector3::new(1, 2, 3)));
    assert_eq!((bounds.max_x, bounds.max_y, bounds.max_z), (5, 4, 6));
    assert_eq!((bounds.min_x, bounds.min_y, bounds.min_z), (-2, 1, 0));
}

#[test]
fn first_sample_claims_every_bound() {
    let mut bounds = CalibrationBounds::new();
    assert_eq!(bounds.max_x, i64::MIN);
    assert_eq!(bounds.min_x, i64::MAX);
    assert!(bounds.update(Vector3::new(7, -8, 9)));
    assert_eq!((bounds.max_x, bounds.min_x), (7, 7));
    assert_eq!((bounds.max_y, bounds.min_y), (-8, -8));
    assert_eq!((bounds.max_z, bounds.min_z), (9, 9));
}

#[test]
fn bounds_never_shrink() {
    let mut bounds = CalibrationBounds::new();
    bounds.update(Vector3::new(10, 10, 10));
    bounds.update(Vector3::new(-10, -10, -10));
    let before = bounds;
    // A strictly interior sample leaves every bound where it was.
    assert!(!bounds.update(Vector3::new(0, 5, -5)));
    assert_eq!(bounds, before);
}

#[test]
fn snapshot_layout_matches_event_payload() {
    let mut bounds = CalibrationBounds::new();
    bounds.update(Vector3::new(1, 2, 3));
    bounds.update(Vector3::new(-1, -2, -3));
    assert_eq!(bounds.snapshot(), ((1, -1), (2, -2), (3, -3)));
}
