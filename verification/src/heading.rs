//! Heading estimation: wraparound-aware angular distance and change
//! hysteresis.
//!
//! Headings are integer degrees in `[0, 360)`. The distance between two
//! headings is the shorter arc around the circle, so 359° and 1° are 2°
//! apart, not 358°. A new heading is emitted only when it moves more than
//! [`HEADING_HYSTERESIS`] degrees away from the last emitted one; this
//! suppresses event flooding from sensor jitter near any heading, the 0/360
//! boundary included.

use vstd::prelude::*;

verus! {

/// Degrees a computed heading must move from the last emitted one before a
/// change is emitted.
pub const HEADING_HYSTERESIS: i32 = 2;

/// The shorter arc between two headings in `[0, 360)`.
pub open spec fn wrap_distance(a: int, b: int) -> int {
    let d = if a >= b {
        a - b
    } else {
        b - a
    };
    if d > 180 {
        360 - d
    } else {
        d
    }
}

/// A rounded arctangent result from `[-180, 180]` brought into `[0, 360)`
/// by adding a full turn to negative angles.
pub open spec fn normalize_heading(h: int) -> int {
    if h < 0 {
        h + 360
    } else {
        h
    }
}

/// Executable form of [`wrap_distance`].
pub fn heading_distance(a: i32, b: i32) -> (r: i32)
    requires
        0 <= a < 360,
        0 <= b < 360,
    ensures
        r == wrap_distance(a as int, b as int),
        0 <= r <= 180,
{
    let d = if a >= b {
        a - b
    } else {
        b - a
    };
    if d > 180 {
        360 - d
    } else {
        d
    }
}

/// The last emitted heading, with the hysteresis rule for emitting the next
/// one.
pub struct HeadingTracker {
    pub last: i32,
}

impl HeadingTracker {
    /// The retained heading is a valid heading.
    pub open spec fn wf(self) -> bool {
        0 <= self.last < 360
    }

    /// A fresh tracker; before any emission the last emitted heading reads
    /// as zero.
    pub fn new() -> (r: HeadingTracker)
        ensures
            r.last == 0,
            r.wf(),
    {
        HeadingTracker { last: 0 }
    }

    /// Offer a newly computed heading in `[-180, 180]` degrees (as an
    /// arctangent rounds). The heading is normalized into `[0, 360)`; it is
    /// emitted — and only then retained — exactly when its wraparound
    /// distance from the last emitted heading exceeds the hysteresis
    /// threshold.
    pub fn observe(&mut self, heading: i32) -> (r: Option<i32>)
        requires
            -180 <= heading <= 180,
            old(self).wf(),
        ensures
            final(self).wf(),
            ({
                let n = normalize_heading(heading as int);
                let moved = wrap_distance(n, old(self).last as int) > HEADING_HYSTERESIS;
                &&& moved ==> r == Some(n as i32) && final(self).last == n
                &&& !moved ==> r is None && final(self).last == old(self).last
            }),
    {
        let normalized: i32 = if heading < 0 {
            heading + 360
        } else {
            heading
        };
        let distance = heading_distance(normalized, self.last);
        if distance > HEADING_HYSTERESIS {
            self.last = normalized;
            Some(normalized)
        } else {
            None
        }
    }
}

} // verus!
