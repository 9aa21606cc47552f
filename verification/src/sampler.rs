//! The sampling pipeline and lifecycle state machine.
//!
//! A dedicated worker thread in the surrounding runtime waits on the
//! data-ready interrupt, reads and decodes a measurement, and hands each
//! decoded sample to [`SamplingCore::process_sample`] together with the
//! milliseconds elapsed since the last recorded sample. The core then does
//! everything that can be decided without touching hardware: it smooths the
//! sample, maintains the bounded sliding window and the windowed average,
//! emits the raw-changed event, widens the calibration bounds while
//! calibrating, and while measuring returns the offset-compensated field
//! components from which the runtime computes the arctangent; the rounded
//! angle comes back through [`SamplingCore::observe_heading`], which applies
//! the hysteresis rule. Events are returned in emission order: the
//! raw-changed event always precedes a calibration-change event for the
//! same sample, and a heading change can only follow both.

use vstd::prelude::*;

use crate::calib::CalibrationBounds;
use crate::defs::MagSensorState;
use crate::heading::{normalize_heading, wrap_distance, HeadingTracker, HEADING_HYSTERESIS};
use crate::math::{div_trunc, div_trunc_i64, lemma_div_trunc_bound, lp_component, LowPassFilter,
    Vector3, ALPHA_UNIT};
use crate::tables::MAG_LIMIT;

verus! {

/// Samples averaged while calibrating: a short window settles fast.
pub const CALIBRATION_SAMPLES: usize = 30;

/// Capacity of the sliding window, and the count averaged while measuring.
pub const MEASUREMENT_SAMPLES: usize = 100;

/// Minimum milliseconds between recorded samples while calibrating.
pub const CALIBRATION_SAMPLE_TIME_MS: u64 = 10;

/// Minimum milliseconds between recorded samples otherwise.
pub const MEASUREMENT_SAMPLE_TIME_MS: u64 = 1000;

/// An event pushed to subscribers, in emission order, by the sampling loop.
#[derive(Debug, Clone, Copy, PartialEq, Eq)]
pub enum MagSensorEvent {
    /// A new windowed-average sample, in milli-µT per axis.
    RawChanged(Vector3),
    /// The calibration bounds widened; the payload is the per-axis
    /// `(max, min)` snapshot after the change.
    CalibratedChanged((i64, i64), (i64, i64), (i64, i64)),
    /// The heading moved past the hysteresis threshold; degrees in
    /// `[0, 360)`.
    HeadingChanged(i32),
}

/// The two offset-compensated field components handed to the runtime's
/// arctangent while measuring, in milli-µT.
#[derive(Debug, Clone, Copy, PartialEq, Eq, Structural)]
pub struct HeadingInput {
    pub calc_x: i64,
    pub calc_y: i64,
}

/// What one sampling-loop iteration produced.
pub struct SampleOutcome {
    /// Events owed to subscribers, in emission order.
    pub events: Vec<MagSensorEvent>,
    /// Whether the sample was recorded into the window (the caller resets
    /// its inter-sample clock exactly when this holds).
    pub recorded: bool,
    /// While measuring, the components whose arctangent is the heading.
    pub heading_input: Option<HeadingInput>,
}

/// Every sample in a window is in range.
pub open spec fn all_wf(s: Seq<Vector3>) -> bool {
    forall|i: int| 0 <= i < s.len() ==> s[i].wf()
}

/// Sum of the X components of a window.
pub open spec fn sum_x(s: Seq<Vector3>) -> int
    decreases s.len(),
{
    if s.len() == 0 {
        0
    } else {
        sum_x(s.drop_last()) + s.last().x
    }
}

/// Sum of the Y components of a window.
pub open spec fn sum_y(s: Seq<Vector3>) -> int
    decreases s.len(),
{
    if s.len() == 0 {
        0
    } else {
        sum_y(s.drop_last()) + s.last().y
    }
}

/// Sum of the Z components of a window.
pub open spec fn sum_z(s: Seq<Vector3>) -> int
    decreases s.len(),
{
    if s.len() == 0 {
        0
    } else {
        sum_z(s.drop_last()) + s.last().z
    }
}

/// Extending a slice of the window by one sample extends each sum by that
/// sample's component.
proof fn lemma_sum_extend(s: Seq<Vector3>, from: int, i: int)
    requires
        0 <= from <= i < s.len(),
    ensures
        sum_x(s.subrange(from, i + 1)) == sum_x(s.subrange(from, i)) + s[i].x,
        sum_y(s.subrange(from, i + 1)) == sum_y(s.subrange(from, i)) + s[i].y,
        sum_z(s.subrange(from, i + 1)) == sum_z(s.subrange(from, i)) + s[i].z,
{
    let t = s.subrange(from, i + 1);
    assert(t.drop_last() =~= s.subrange(from, i));
    assert(t.last() == s[i]);
}

/// The smoothed sample the filter will produce for an input.
pub open spec fn lp_filtered(filter: LowPassFilter, input: Vector3) -> Vector3 {
    match filter.state {
        None => input,
        Some(prev) => Vector3 {
            x: lp_component(filter.alpha as int, prev.x as int, input.x as int) as i64,
            y: lp_component(filter.alpha as int, prev.y as int, input.y as int) as i64,
            z: lp_component(filter.alpha as int, prev.z as int, input.z as int) as i64,
        },
    }
}

/// The window after a recorded sample: appended, oldest evicted past
/// capacity.
pub open spec fn pushed_window(s: Seq<Vector3>, v: Vector3) -> Seq<Vector3> {
    let grown = s.push(v);
    if grown.len() > MEASUREMENT_SAMPLES {
        grown.subrange(1, grown.len() as int)
    } else {
        grown
    }
}

/// Minimum milliseconds between recorded samples in a state: short while
/// calibrating, long otherwise.
pub open spec fn sample_interval_ms(state: MagSensorState) -> u64 {
    if state == MagSensorState::Calibrating {
        CALIBRATION_SAMPLE_TIME_MS
    } else {
        MEASUREMENT_SAMPLE_TIME_MS
    }
}

/// How many of the newest window entries are averaged in a state: capped
/// for fast convergence while calibrating, the whole window otherwise.
pub open spec fn avg_count(state: MagSensorState, len: int) -> int {
    if state == MagSensorState::Calibrating {
        if len < CALIBRATION_SAMPLES {
            len
        } else {
            CALIBRATION_SAMPLES as int
        }
    } else {
        len
    }
}

/// The component-wise mean, rounded toward zero, of the newest `count`
/// window entries.
pub open spec fn window_avg(s: Seq<Vector3>, count: int) -> Vector3
    recommends
        1 <= count <= s.len(),
{
    let t = s.subrange(s.len() - count, s.len() as int);
    Vector3 {
        x: div_trunc(sum_x(t), count) as i64,
        y: div_trunc(sum_y(t), count) as i64,
        z: div_trunc(sum_z(t), count) as i64,
    }
}

/// One offset-compensated component: the mean of the smoothed sample and
/// the windowed average, minus the midpoint of the calibration bounds, each
/// mean rounded toward zero.
pub open spec fn compensated(smoothed: int, average: int, bound_max: int, bound_min: int) -> int {
    div_trunc(smoothed + average, 2) - div_trunc(bound_max + bound_min, 2)
}

/// Mean of the newest `count` window entries, all in range.
fn window_average(pool: &Vec<Vector3>, count: usize) -> (r: Vector3)
    requires
        1 <= count <= pool@.len(),
        pool@.len() <= MEASUREMENT_SAMPLES,
        all_wf(pool@),
    ensures
        r == window_avg(pool@, count as int),
        r.wf(),
{
    let from: usize = pool.len() - count;
    let mut sx: i64 = 0;
    let mut sy: i64 = 0;
    let mut sz: i64 = 0;
    let mut i: usize = from;
    while i < pool.len()
        invariant
            from == pool@.len() - count,
            from <= i <= pool@.len(),
            1 <= count <= pool@.len() <= MEASUREMENT_SAMPLES,
            all_wf(pool@),
            sx == sum_x(pool@.subrange(from as int, i as int)),
            sy == sum_y(pool@.subrange(from as int, i as int)),
            sz == sum_z(pool@.subrange(from as int, i as int)),
            -((i - from) * MAG_LIMIT) <= sx <= (i - from) * MAG_LIMIT,
            -((i - from) * MAG_LIMIT) <= sy <= (i - from) * MAG_LIMIT,
            -((i - from) * MAG_LIMIT) <= sz <= (i - from) * MAG_LIMIT,
        decreases pool@.len() - i,
    {
        let v = pool[i];
        proof {
            lemma_sum_extend(pool@, from as int, i as int);
            assert(v.wf());
        }
        sx = sx + v.x;
        sy = sy + v.y;
        sz = sz + v.z;
        i = i + 1;
    }
    proof {
        assert(pool@.subrange(from as int, i as int) =~= pool@.subrange(
            pool@.len() - count,
            pool@.len() as int,
        ));
        lemma_div_trunc_bound(sx as int, count as int, MAG_LIMIT as int);
        lemma_div_trunc_bound(sy as int, count as int, MAG_LIMIT as int);
        lemma_div_trunc_bound(sz as int, count as int, MAG_LIMIT as int);
        assert(count * MAG_LIMIT == MAG_LIMIT * (count as int)) by (nonlinear_arith);
    }
    Vector3 {
        x: div_trunc_i64(sx, count as i64),
        y: div_trunc_i64(sy, count as i64),
        z: div_trunc_i64(sz, count as i64),
    }
}

/// One offset-compensated component, executable. The bound arguments may
/// still be the unset sentinels, so their sum is taken in wider arithmetic.
fn compensate(smoothed: i64, average: i64, bound_max: i64, bound_min: i64) -> (r: i64)
    requires
        -MAG_LIMIT <= smoothed <= MAG_LIMIT,
        -MAG_LIMIT <= average <= MAG_LIMIT,
        bound_max == i64::MIN || -MAG_LIMIT <= bound_max <= MAG_LIMIT,
        bound_min == i64::MAX || -MAG_LIMIT <= bound_min <= MAG_LIMIT,
    ensures
        r == compensated(smoothed as int, average as int, bound_max as int, bound_min as int),
{
    let blend = div_trunc_i64(smoothed + average, 2);
    proof {
        lemma_div_trunc_bound(smoothed + average, 2, MAG_LIMIT as int);
        lemma_div_trunc_bound(
            bound_max + bound_min,
            2,
            0x4000_0000_0000_0000 + MAG_LIMIT as int,
        );
    }
    let sum: i128 = (bound_max as i128) + (bound_min as i128);
    let mid128: i128 = sum.checked_div(2).unwrap();
    proof {
        assert(mid128 == div_trunc(bound_max + bound_min, 2));
    }
    let mid: i64 = mid128 as i64;
    blend - mid
}

/// All state the sampling loop and the lifecycle controller decide over:
/// the smoothing filter, the sliding window and its average, the operating
/// mode (with the previous mode kept for diagnostics), the calibration
/// bounds, the last emitted heading, and the cooperative stop flag.
pub struct SamplingCore {
    pub filter: LowPassFilter,
    pub pool: Vec<Vector3>,
    pub avg: Vector3,
    pub state: MagSensorState,
    pub last_state: MagSensorState,
    pub bounds: CalibrationBounds,
    pub tracker: HeadingTracker,
    pub stop_requested: bool,
}

impl SamplingCore {
    /// Filter, window, average, bounds and tracker all in range.
    pub open spec fn wf(self) -> bool {
        &&& self.filter.wf()
        &&& self.pool@.len() <= MEASUREMENT_SAMPLES
        &&& all_wf(self.pool@)
        &&& self.avg.wf()
        &&& self.bounds.wf()
        &&& self.tracker.wf()
    }

    /// The core after a mode change: the new mode is taken and the previous
    /// one retained for diagnostics; nothing else moves.
    pub open spec fn with_state(self, state: MagSensorState) -> SamplingCore {
        SamplingCore { state, last_state: self.state, ..self }
    }

    /// A fresh core: idle, empty window, zero average, given filter
    /// coefficient (in thousandths) and calibration bounds (as loaded from
    /// the persisted store, or unset).
    pub fn new(alpha: u32, bounds: CalibrationBounds) -> (r: SamplingCore)
        requires
            alpha <= ALPHA_UNIT,
            bounds.wf(),
        ensures
            r.filter.alpha == alpha,
            r.filter.state is None,
            r.pool@.len() == 0,
            r.avg == (Vector3 { x: 0, y: 0, z: 0 }),
            r.state == MagSensorState::Idle,
            r.last_state == MagSensorState::Idle,
            r.bounds == bounds,
            r.tracker.last == 0,
            r.stop_requested == false,
            r.wf(),
    {
        SamplingCore {
            filter: LowPassFilter::new(alpha),
            pool: Vec::new(),
            avg: Vector3 { x: 0, y: 0, z: 0 },
            state: MagSensorState::Idle,
            last_state: MagSensorState::Idle,
            bounds,
            tracker: HeadingTracker::new(),
            stop_requested: false,
        }
    }

    /// Replace the calibration bounds (the application owns their
    /// persistence and their explicit reset).
    pub fn set_bounds(&mut self, bounds: CalibrationBounds)
        requires
            old(self).wf(),
            bounds.wf(),
        ensures
            *final(self) == (SamplingCore { bounds, ..*old(self) }),
            final(self).wf(),
    {
        self.bounds = bounds;
    }

    /// Change the operating mode, retaining the previous mode.
    pub fn set_state(&mut self, state: MagSensorState)
        requires
            old(self).wf(),
        ensures
            *final(self) == old(self).with_state(state),
            final(self).wf(),
    {
        self.last_state = self.state;
        self.state = state;
    }

    /// Enter the foreground calibration window: the runtime has exited any
    /// device mode and started burst sampling; the core is calibrating
    /// until [`SamplingCore::calibrate_exit`].
    pub fn calibrate_enter(&mut self)
        requires
            old(self).wf(),
        ensures
            *final(self) == old(self).with_state(MagSensorState::Calibrating),
            final(self).state == MagSensorState::Calibrating,
            final(self).wf(),
    {
        self.set_state(MagSensorState::Calibrating);
    }

    /// Leave the calibration window once its timeout has elapsed and the
    /// runtime has exited burst mode: back to idle.
    pub fn calibrate_exit(&mut self)
        requires
            old(self).wf(),
        ensures
            *final(self) == old(self).with_state(MagSensorState::Idle),
            final(self).state == MagSensorState::Idle,
            final(self).wf(),
    {
        self.set_state(MagSensorState::Idle);
    }

    /// Begin measuring: the runtime has enabled the wakeup comparator and
    /// entered wakeup-on-change mode.
    pub fn start(&mut self)
        requires
            old(self).wf(),
        ensures
            *final(self) == old(self).with_state(MagSensorState::Measuring),
            final(self).state == MagSensorState::Measuring,
            final(self).wf(),
    {
        self.set_state(MagSensorState::Measuring);
    }

    /// Shut down: force idle and raise the cooperative stop flag that the
    /// sampling loop checks at the top of every iteration.
    pub fn end(&mut self)
        requires
            old(self).wf(),
        ensures
            *final(self) == (SamplingCore { stop_requested: true, ..old(self).with_state(
                MagSensorState::Idle,
            ) }),
            final(self).state == MagSensorState::Idle,
            final(self).stop_requested,
            final(self).wf(),
    {
        self.set_state(MagSensorState::Idle);
        self.stop_requested = true;
    }

    /// Process one decoded sample.
    ///
    /// The sample is smoothed unconditionally. When at least the
    /// state-dependent interval has passed since the last recorded sample,
    /// the smoothed sample enters the window (evicting the oldest past
    /// capacity) and the average is recomputed over the newest
    /// state-capped count. A raw-changed event always comes first; while
    /// calibrating, a calibration-change event follows exactly when the
    /// average widened a bound; while measuring, the offset-compensated
    /// components are returned for the runtime's arctangent.
    pub fn process_sample(&mut self, sample: Vector3, elapsed_ms: u64) -> (r: SampleOutcome)
        requires
            old(self).wf(),
            sample.wf(),
        ensures
            final(self).wf(),
            final(self).state == old(self).state,
            final(self).last_state == old(self).last_state,
            final(self).stop_requested == old(self).stop_requested,
            final(self).filter.alpha == old(self).filter.alpha,
            ({
                let smoothed = lp_filtered(old(self).filter, sample);
                let due = elapsed_ms > sample_interval_ms(old(self).state);
                let pool2 = if due {
                    pushed_window(old(self).pool@, smoothed)
                } else {
                    old(self).pool@
                };
                let avg2 = if due {
                    window_avg(pool2, avg_count(old(self).state, pool2.len() as int))
                } else {
                    old(self).avg
                };
                &&& final(self).filter.state == Some(smoothed)
                &&& final(self).pool@ == pool2
                &&& final(self).avg == avg2
                &&& r.recorded == due
                &&& final(self).tracker == old(self).tracker
                &&& match old(self).state {
                    MagSensorState::Calibrating => {
                        &&& final(self).bounds == old(self).bounds.widened(avg2)
                        &&& r.heading_input is None
                        &&& if old(self).bounds.widens(avg2) {
                            r.events@ =~= seq![
                                MagSensorEvent::RawChanged(avg2),
                                MagSensorEvent::CalibratedChanged(
                                    (final(self).bounds.max_x, final(self).bounds.min_x),
                                    (final(self).bounds.max_y, final(self).bounds.min_y),
                                    (final(self).bounds.max_z, final(self).bounds.min_z),
                                ),
                            ]
                        } else {
                            r.events@ =~= seq![MagSensorEvent::RawChanged(avg2)]
                        }
                    },
                    MagSensorState::Measuring => {
                        &&& final(self).bounds == old(self).bounds
                        &&& r.events@ =~= seq![MagSensorEvent::RawChanged(avg2)]
                        &&& r.heading_input == Some(HeadingInput {
                            calc_x: compensated(
                                smoothed.x as int,
                                avg2.x as int,
                                old(self).bounds.max_x as int,
                                old(self).bounds.min_x as int,
                            ) as i64,
                            calc_y: compensated(
                                smoothed.y as int,
                                avg2.y as int,
                                old(self).bounds.max_y as int,
                                old(self).bounds.min_y as int,
                            ) as i64,
                        })
                    },
                    MagSensorState::Idle => {
                        &&& final(self).bounds == old(self).bounds
                        &&& r.events@ =~= seq![MagSensorEvent::RawChanged(avg2)]
                        &&& r.heading_input is None
                    },
                }
            }),
    {
        let smoothed = self.filter.update(sample);
        let interval: u64 = if matches!(self.state, MagSensorState::Calibrating) {
            CALIBRATION_SAMPLE_TIME_MS
        } else {
            MEASUREMENT_SAMPLE_TIME_MS
        };
        let due = elapsed_ms > interval;
        if due {
            self.pool.push(smoothed);
            if self.pool.len() > MEASUREMENT_SAMPLES {
                self.pool.remove(0);
                proof {
                    assert(self.pool@ =~= old(self).pool@.push(smoothed).subrange(
                        1,
                        old(self).pool@.push(smoothed).len() as int,
                    ));
                }
            }
            proof {
                assert(self.pool@ =~= pushed_window(old(self).pool@, smoothed));
                assert(all_wf(self.pool@));
            }
            let count: usize = if matches!(self.state, MagSensorState::Calibrating) {
                if self.pool.len() < CALIBRATION_SAMPLES {
                    self.pool.len()
                } else {
                    CALIBRATION_SAMPLES
                }
            } else {
                self.pool.len()
            };
            self.avg = window_average(&self.pool, count);
        }
        let mut events: Vec<MagSensorEvent> = Vec::new();
        events.push(MagSensorEvent::RawChanged(self.avg));
        let mut heading_input: Option<HeadingInput> = None;
        match self.state {
            MagSensorState::Calibrating => {
                let changed = self.bounds.update(self.avg);
                if changed {
                    let snap = self.bounds.snapshot();
                    events.push(MagSensorEvent::CalibratedChanged(snap.0, snap.1, snap.2));
                }
            },
            MagSensorState::Measuring => {
                heading_input = Some(
                    HeadingInput {
                        calc_x: compensate(
                            smoothed.x,
                            self.avg.x,
                            self.bounds.max_x,
                            self.bounds.min_x,
                        ),
                        calc_y: compensate(
                            smoothed.y,
                            self.avg.y,
                            self.bounds.max_y,
                            self.bounds.min_y,
                        ),
                    },
                );
            },
            MagSensorState::Idle => {},
        }
        SampleOutcome { events, recorded: due, heading_input }
    }

    /// Offer the rounded arctangent of the last heading input, in
    /// `[-180, 180]` degrees. The normalized heading is emitted — and the
    /// tracker updated — exactly when it moves more than the hysteresis
    /// threshold away from the last emitted heading.
    pub fn observe_heading(&mut self, heading_deg: i32) -> (r: Option<MagSensorEvent>)
        requires
            old(self).wf(),
            -180 <= heading_deg <= 180,
        ensures
            final(self).wf(),
            *final(self) == (SamplingCore { tracker: final(self).tracker, ..*old(self) }),
            ({
                let n = normalize_heading(heading_deg as int);
                let moved = wrap_distance(n, old(self).tracker.last as int) > HEADING_HYSTERESIS;
                &&& moved ==> r == Some(MagSensorEvent::HeadingChanged(n as i32))
                    && final(self).tracker.last == n
                &&& !moved ==> r is None && final(self).tracker == old(self).tracker
            }),
    {
        match self.tracker.observe(heading_deg) {
            Some(heading) => Some(MagSensorEvent::HeadingChanged(heading)),
            None => None,
        }
    }
}

/// The lifecycle state machine: entering calibration from idle reaches
/// `Calibrating` and leaving it when the window closes restores `Idle`;
/// starting measurement reaches `Measuring`; ending forces `Idle` from any
/// state and raises the stop flag the sampling loop obeys. Every transition
/// retains the mode it left for diagnostics.
pub proof fn lemma_lifecycle_transitions(core: SamplingCore)
    ensures
        core.with_state(MagSensorState::Calibrating).state == MagSensorState::Calibrating,
        core.with_state(MagSensorState::Calibrating).with_state(MagSensorState::Idle).state
            == MagSensorState::Idle,
        core.with_state(MagSensorState::Measuring).state == MagSensorState::Measuring,
        core.with_state(MagSensorState::Measuring).last_state == core.state,
        ({
            let ended = SamplingCore { stop_requested: true, ..core.with_state(
                MagSensorState::Idle,
            ) };
            ended.state == MagSensorState::Idle && ended.stop_requested
        }),
{
}

} // verus!
