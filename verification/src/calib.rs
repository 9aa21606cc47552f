//! Running calibration engine: per-axis min/max bounds that only widen.
//!
//! While the sensor calibrates, every windowed-average sample may push a
//! bound outward; bounds never shrink on their own, and resetting them is an
//! explicit operation of the surrounding application, not of this engine.
//! An unset maximum reads as `i64::MIN` and an unset minimum as `i64::MAX`,
//! so the first sample claims every bound.

use vstd::prelude::*;

use crate::math::Vector3;
use crate::tables::MAG_LIMIT;

verus! {

/// Six per-axis calibration bounds in milli-µT.
#[derive(Debug, Clone, Copy, PartialEq, Eq, Structural)]
pub struct CalibrationBounds {
    pub max_x: i64,
    pub min_x: i64,
    pub max_y: i64,
    pub min_y: i64,
    pub max_z: i64,
    pub min_z: i64,
}

impl CalibrationBounds {
    /// Each bound is either still unset or a value a sample once took.
    pub open spec fn wf(self) -> bool {
        &&& (self.max_x == i64::MIN || -MAG_LIMIT <= self.max_x <= MAG_LIMIT)
        &&& (self.min_x == i64::MAX || -MAG_LIMIT <= self.min_x <= MAG_LIMIT)
        &&& (self.max_y == i64::MIN || -MAG_LIMIT <= self.max_y <= MAG_LIMIT)
        &&& (self.min_y == i64::MAX || -MAG_LIMIT <= self.min_y <= MAG_LIMIT)
        &&& (self.max_z == i64::MIN || -MAG_LIMIT <= self.max_z <= MAG_LIMIT)
        &&& (self.min_z == i64::MAX || -MAG_LIMIT <= self.min_z <= MAG_LIMIT)
    }

    /// The bounds after one sample has been offered: each maximum rises to
    /// the sample where the sample exceeds it, each minimum falls likewise.
    pub open spec fn widened(self, sample: Vector3) -> CalibrationBounds {
        CalibrationBounds {
            max_x: if sample.x > self.max_x {
                sample.x
            } else {
                self.max_x
            },
            min_x: if sample.x < self.min_x {
                sample.x
            } else {
                self.min_x
            },
            max_y: if sample.y > self.max_y {
                sample.y
            } else {
                self.max_y
            },
            min_y: if sample.y < self.min_y {
                sample.y
            } else {
                self.min_y
            },
            max_z: if sample.z > self.max_z {
                sample.z
            } else {
                self.max_z
            },
            min_z: if sample.z < self.min_z {
                sample.z
            } else {
                self.min_z
            },
        }
    }

    /// Whether one sample moves any bound.
    pub open spec fn widens(self, sample: Vector3) -> bool {
        ||| sample.x > self.max_x
        ||| sample.x < self.min_x
        ||| sample.y > self.max_y
        ||| sample.y < self.min_y
        ||| sample.z > self.max_z
        ||| sample.z < self.min_z
    }

    /// Bounds with nothing recorded yet.
    pub fn new() -> (r: CalibrationBounds)
        ensures
            r.max_x == i64::MIN,
            r.min_x == i64::MAX,
            r.max_y == i64::MIN,
            r.min_y == i64::MAX,
            r.max_z == i64::MIN,
            r.min_z == i64::MAX,
            r.wf(),
    {
        CalibrationBounds {
            max_x: i64::MIN,
            min_x: i64::MAX,
            max_y: i64::MIN,
            min_y: i64::MAX,
            max_z: i64::MIN,
            min_z: i64::MAX,
        }
    }

    /// Offer one sample: widen whatever bounds it exceeds and report
    /// whether anything moved — exactly when a calibration-change event is
    /// owed.
    pub fn update(&mut self, sample: Vector3) -> (changed: bool)
        requires
            old(self).wf(),
            sample.wf(),
        ensures
            *final(self) == old(self).widened(sample),
            changed == old(self).widens(sample),
            final(self).wf(),
    {
        let mut changed = false;
        if sample.x > self.max_x {
            self.max_x = sample.x;
            changed = true;
        }
        if sample.x < self.min_x {
            self.min_x = sample.x;
            changed = true;
        }
        if sample.y > self.max_y {
            self.max_y = sample.y;
            changed = true;
        }
        if sample.y < self.min_y {
            self.min_y = sample.y;
            changed = true;
        }
        if sample.z > self.max_z {
            self.max_z = sample.z;
            changed = true;
        }
        if sample.z < self.min_z {
            self.min_z = sample.z;
            changed = true;
        }
        changed
    }

    /// The per-axis `(max, min)` snapshot that travels in a
    /// calibration-change event.
    pub fn snapshot(&self) -> (r: ((i64, i64), (i64, i64), (i64, i64)))
        ensures
            r == ((self.max_x, self.min_x), (self.max_y, self.min_y), (self.max_z, self.min_z)),
    {
        ((self.max_x, self.min_x), (self.max_y, self.min_y), (self.max_z, self.min_z))
    }
}

/// Calibration only ever widens: offering a sample never lowers a maximum
/// or raises a minimum, and it moves the bounds at all exactly when
/// [`CalibrationBounds::widens`] holds — the condition under which, and
/// only under which, a calibration-change event fires.
pub proof fn lemma_calibration_only_widens(bounds: CalibrationBounds, sample: Vector3)
    requires
        bounds.wf(),
        sample.wf(),
    ensures
        bounds.widened(sample).max_x >= bounds.max_x,
        bounds.widened(sample).min_x <= bounds.min_x,
        bounds.widened(sample).max_y >= bounds.max_y,
        bounds.widened(sample).min_y <= bounds.min_y,
        bounds.widened(sample).max_z >= bounds.max_z,
        bounds.widened(sample).min_z <= bounds.min_z,
        bounds.widens(sample) <==> bounds.widened(sample) != bounds,
        bounds.widened(sample).wf(),
{
}

} // verus!
