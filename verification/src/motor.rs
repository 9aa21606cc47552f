//! The servo pointer: angle validation and pulse-width arithmetic.
//!
//! The pointer accepts angles from 0 to 180 degrees. An angle maps to a
//! high-time between 500 µs and 2500 µs of a 20 ms (20000 µs) period, and
//! the high-time maps to a duty value against the PWM driver's maximum
//! duty; the runtime owns the driver and the thread that applies the duty.

use vstd::prelude::*;

use crate::error::MagError;

verus! {

/// The commanded pointer angle.
pub struct Motor {
    pub angle: u32,
}

impl Motor {
    /// A pointer commanded to 0 degrees.
    pub fn new() -> (r: Motor)
        ensures
            r.angle == 0,
    {
        Motor { angle: 0 }
    }

    /// Command an angle in degrees: accepted and stored exactly when it
    /// lies between 0 and 180; anything else is rejected unchanged.
    pub fn set_angle(&mut self, angle: i32) -> (r: Result<(), MagError>)
        ensures
            r is Ok <==> 0 <= angle <= 180,
            r is Ok ==> final(self).angle == angle,
            r is Err ==> *final(self) == *old(self) && r->Err_0 == MagError::InvalidArgument,
    {
        if angle > 180 || angle < 0 {
            return Err(MagError::InvalidArgument);
        }
        self.angle = angle as u32;
        Ok(())
    }

    /// The last commanded angle.
    pub fn get_angle(&self) -> (r: u32)
        ensures
            r == self.angle,
    {
        self.angle
    }
}

/// The servo high-time in microseconds for an angle: 500 µs at 0°, rising
/// linearly to 2500 µs at 180°.
pub fn servo_pulse_us(angle: u32) -> (r: u32)
    requires
        angle <= 180,
    ensures
        r == (angle * (2500 - 500)) / 180 + 500,
        500 <= r <= 2500,
{
    (angle * (2500 - 500)) / 180 + 500
}

/// The duty value that realises a high-time against the driver's maximum
/// duty over the 20000 µs period.
pub fn servo_duty(pulse_us: u32, max_duty: u32) -> (r: u32)
    requires
        pulse_us <= 2500,
    ensures
        r == (pulse_us * max_duty) / 20000,
        r <= max_duty,
{
    proof {
        assert(pulse_us * max_duty <= 2500 * (max_duty as int)) by (nonlinear_arith)
            requires
                pulse_us <= 2500,
                max_duty >= 0,
        ;
        assert((pulse_us * max_duty) / 20000 <= max_duty) by (nonlinear_arith)
            requires
                0 <= pulse_us <= 2500,
                max_duty >= 0,
        ;
    }
    let wide: u64 = (pulse_us as u64) * (max_duty as u64);
    (wide / 20000) as u32
}

} // verus!
