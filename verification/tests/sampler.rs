use truenorth::calib::CalibrationBounds;
use truenorth::defs::MagSensorState;
use truenorth::math::Vector3;
use truenorth::sampler::{MagSensorEvent, SamplingCore};

fn fresh_core() -> SamplingCore {
    SamplingCore::new(500, CalibrationBounds::new())
}

#[test]
fn first_recorded_sample_becomes_the_average() {
    let mut core = fresh_core();
    let s = Vector3::new(1000, 2000, 3000);
    let out = core.process_sample(s, 1001);
    assert!(out.recorded);
    assert_eq!(core.pool.len(), 1);
    assert_eq!(core.avg, s);
    assert_eq!(out.events, vec![MagSensorEvent::RawChanged(s)]);
    assert!(out.heading_input.is_none());
}

#[test]
fn sample_below_interval_is_not_recorded() {
    let mut core = fresh_core();
    let s1 = Vector3::new(1000, 2000, 3000);
    core.process_sample(s1, 1001);
    // Idle keeps the long interval: 500 ms is too soon to record, so the
    // window and the average stay, though the raw event still carries the
    // standing average.
    let out = core.process_sample(Vector3::new(9000, 9000, 9000), 500);
    assert!(!out.recorded);
    assert_eq!(core.pool.len(), 1);
    assert_eq!(core.avg, s1);
    assert_eq!(out.events, vec![MagSensorEvent::RawChanged(s1)]);
}

#[test]
fn low_pass_filter_smooths_recorded_samples() {
    let mut core = fresh_core();
    core.process_sample(Vector3::new(1000, 0, -1000), 1001);
    let out = core.process_sample(Vector3::new(3000, 0, -3000), 1001);
    assert!(out.recorded);
    // Half-weight filter: the second smoothed sample is the midpoint, and
    // the average over both window entries follows.
    assert_eq!(core.pool[1], Vector3::new(2000, 0, -2000));
    assert_eq!(core.avg, Vector3::new(1500, 0, -1500));
    assert_eq!(out.events, vec![MagSensorEvent::RawChanged(core.avg)]);
}

#[test]
fn calibrating_emits_calibration_change_only_when_bounds_move() {
    let mut core = fresh_core();
    core.calibrate_enter();
    let s = Vector3::new(1000, 2000, 3000);
    let out = core.process_sample(s, 11);
    assert!(out.recorded);
    assert_eq!(
        out.events,
        vec![
            MagSensorEvent::RawChanged(s),
            MagSensorEvent::CalibratedChanged((1000, 1000), (2000, 2000), (3000, 3000)),
        ]
    );
    // The same field again: nothing widens, only the raw event fires.
    let out = core.process_sample(s, 11);
    assert_eq!(out.events, vec![MagSensorEvent::RawChanged(s)]);
    assert!(out.heading_input.is_none());
}

#[test]
fn calibrating_uses_the_short_interval() {
    let mut core = fresh_core();
    core.calibrate_enter();
    let out = core.process_sample(Vector3::new(1, 1, 1), 11);
    assert!(out.recorded);
    let out = core.process_sample(Vector3::new(1, 1, 1), 10);
    assert!(!out.recorded);
}

#[test]
fn calibrating_averages_at_most_thirty_newest_samples() {
    // A pass-through filter keeps the recorded values distinct.
    let mut core = SamplingCore::new(1000, CalibrationBounds::new());
    core.calibrate_enter();
    for i in 1..=40 {
        core.process_sample(Vector3::new(i * 10, 0, 0), 11);
    }
    assert_eq!(core.pool.len(), 40);
    // The newest 30 entries are 110, 120, ..., 400; their mean is 255.
    assert_eq!(core.avg.x, 255);
}

#[test]
fn window_capacity_evicts_the_oldest() {
    let mut core = SamplingCore::new(1000, CalibrationBounds::new());
    for i in 0..105 {
        core.process_sample(Vector3::new(i, 0, 0), 1001);
    }
    assert_eq!(core.pool.len(), 100);
    // The five oldest samples (0..4) are gone.
    assert_eq!(core.pool[0], Vector3::new(5, 0, 0));
    assert_eq!(core.pool[99], Vector3::new(104, 0, 0));
}

#[test]
fn measuring_returns_compensated_heading_components() {
    let mut core = SamplingCore::new(1000, CalibrationBounds::new());
    core.set_bounds(CalibrationBounds {
        max_x: 2000,
        min_x: 0,
        max_y: 2000,
        min_y: 0,
        max_z: 2000,
        min_z: 0,
    });
    core.start();
    let s = Vector3::new(2000, 1000, 0);
    let out = core.process_sample(s, 1001);
    assert_eq!(out.events, vec![MagSensorEvent::RawChanged(s)]);
    let input = out.heading_input.unwrap();
    // Blend of smoothed sample and average is the sample itself here; the
    // calibration midpoint (1000, 1000) is subtracted.
    assert_eq!(input.calc_x, 1000);
    assert_eq!(input.calc_y, 0);
    // The runtime's arctangent of (1000, 0) is 90 degrees east of north.
    let heading = (input.calc_x as f32).atan2(input.calc_y as f32).to_degrees();
    let event = core.observe_heading(heading.round() as i32);
    assert_eq!(event, Some(MagSensorEvent::HeadingChanged(90)));
}

#[test]
fn heading_observation_applies_hysteresis() {
    let mut core = fresh_core();
    assert_eq!(core.observe_heading(1), None);
    assert_eq!(
        core.observe_heading(45),
        Some(MagSensorEvent::HeadingChanged(45))
    );
    assert_eq!(core.observe_heading(46), None);
    assert_eq!(
        core.observe_heading(-90),
        Some(MagSensorEvent::HeadingChanged(270))
    );
}

#[test]
fn raw_event_always_comes_first() {
    let mut core = fresh_core();
    core.calibrate_enter();
    for i in 0..10 {
        let out = core.process_sample(Vector3::new(i * 100, -i * 50, i), 11);
        assert!(matches!(out.events[0], MagSensorEvent::RawChanged(_)));
    }
}

#[test]
fn lifecycle_transitions() {
    let mut core = fresh_core();
    assert_eq!(core.state, MagSensorState::Idle);
    core.calibrate_enter();
    assert_eq!(core.state, MagSensorState::Calibrating);
    assert_eq!(core.last_state, MagSensorState::Idle);
    core.calibrate_exit();
    assert_eq!(core.state, MagSensorState::Idle);
    assert_eq!(core.last_state, MagSensorState::Calibrating);
    core.start();
    assert_eq!(core.state, MagSensorState::Measuring);
    core.end();
    assert_eq!(core.state, MagSensorState::Idle);
    assert_eq!(core.last_state, MagSensorState::Measuring);
    assert!(core.stop_requested);
}

#[test]
fn end_stops_from_any_state() {
    let mut core = fresh_core();
    core.calibrate_enter();
    core.end();
    assert_eq!(core.state, MagSensorState::Idle);
    assert!(core.stop_requested);
}
