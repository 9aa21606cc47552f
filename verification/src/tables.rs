//! Gain/resolution conversion table and the measurement decoder.
//!
//! The device's sensitivity depends on the configured resolution and gain.
//! The table below gives microtesla-per-count scale factors in thousandths
//! of a microtesla (milli-µT), one pair per `(resolution, gain)` cell: the
//! first component applies to the X and Y axes, the second to Z. A decoded
//! reading is therefore an exact integer in milli-µT.

use vstd::prelude::*;

use crate::defs::{MLX90393GAIN, MLX90393RESOLUTION};

verus! {

/// Largest magnitude a decoded axis value can take, in milli-µT: a raw
/// reading is a signed 16-bit count and no scale factor exceeds 9680.
pub const MAG_LIMIT: i64 = 400_000_000;

/// X/Y-axis scale factor in milli-µT per count for a `(resolution, gain)`
/// configuration.
pub open spec fn scale_xy(resolution: MLX90393RESOLUTION, gain: MLX90393GAIN) -> int {
    match resolution {
        MLX90393RESOLUTION::RES16 => match gain {
            MLX90393GAIN::GAIN5X => 751,
            MLX90393GAIN::GAIN4X => 601,
            MLX90393GAIN::GAIN3X => 451,
            MLX90393GAIN::GAIN2_5X => 376,
            MLX90393GAIN::GAIN2X => 300,
            MLX90393GAIN::GAIN1_67X => 250,
            MLX90393GAIN::GAIN1_33X => 200,
            MLX90393GAIN::GAIN1X => 150,
        },
        MLX90393RESOLUTION::RES17 => match gain {
            MLX90393GAIN::GAIN5X => 1502,
            MLX90393GAIN::GAIN4X => 1202,
            MLX90393GAIN::GAIN3X => 901,
            MLX90393GAIN::GAIN2_5X => 751,
            MLX90393GAIN::GAIN2X => 601,
            MLX90393GAIN::GAIN1_67X => 501,
            MLX90393GAIN::GAIN1_33X => 401,
            MLX90393GAIN::GAIN1X => 300,
        },
        MLX90393RESOLUTION::RES18 => match gain {
            MLX90393GAIN::GAIN5X => 3004,
            MLX90393GAIN::GAIN4X => 2403,
            MLX90393GAIN::GAIN3X => 1803,
            MLX90393GAIN::GAIN2_5X => 1502,
            MLX90393GAIN::GAIN2X => 1202,
            MLX90393GAIN::GAIN1_67X => 1001,
            MLX90393GAIN::GAIN1_33X => 801,
            MLX90393GAIN::GAIN1X => 601,
        },
        MLX90393RESOLUTION::RES19 => match gain {
            MLX90393GAIN::GAIN5X => 6009,
            MLX90393GAIN::GAIN4X => 4840,
            MLX90393GAIN::GAIN3X => 3605,
            MLX90393GAIN::GAIN2_5X => 3004,
            MLX90393GAIN::GAIN2X => 2403,
            MLX90393GAIN::GAIN1_67X => 2003,
            MLX90393GAIN::GAIN1_33X => 1602,
            MLX90393GAIN::GAIN1X => 1202,
        },
    }
}

/// Z-axis scale factor in milli-µT per count for a `(resolution, gain)`
/// configuration.
pub open spec fn scale_z(resolution: MLX90393RESOLUTION, gain: MLX90393GAIN) -> int {
    match resolution {
        MLX90393RESOLUTION::RES16 => match gain {
            MLX90393GAIN::GAIN5X => 1210,
            MLX90393GAIN::GAIN4X => 968,
            MLX90393GAIN::GAIN3X => 726,
            MLX90393GAIN::GAIN2_5X => 605,
            MLX90393GAIN::GAIN2X => 484,
            MLX90393GAIN::GAIN1_67X => 403,
            MLX90393GAIN::GAIN1_33X => 323,
            MLX90393GAIN::GAIN1X => 242,
        },
        MLX90393RESOLUTION::RES17 => match gain {
            MLX90393GAIN::GAIN5X => 2420,
            MLX90393GAIN::GAIN4X => 1936,
            MLX90393GAIN::GAIN3X => 1452,
            MLX90393GAIN::GAIN2_5X => 1210,
            MLX90393GAIN::GAIN2X => 968,
            MLX90393GAIN::GAIN1_67X => 807,
            MLX90393GAIN::GAIN1_33X => 645,
            MLX90393GAIN::GAIN1X => 484,
        },
        MLX90393RESOLUTION::RES18 => match gain {
            MLX90393GAIN::GAIN5X => 4840,
            MLX90393GAIN::GAIN4X => 3872,
            MLX90393GAIN::GAIN3X => 2904,
            MLX90393GAIN::GAIN2_5X => 2420,
            MLX90393GAIN::GAIN2X => 1936,
            MLX90393GAIN::GAIN1_67X => 1613,
            MLX90393GAIN::GAIN1_33X => 1291,
            MLX90393GAIN::GAIN1X => 968,
        },
        MLX90393RESOLUTION::RES19 => match gain {
            MLX90393GAIN::GAIN5X => 9680,
            MLX90393GAIN::GAIN4X => 7744,
            MLX90393GAIN::GAIN3X => 5808,
            MLX90393GAIN::GAIN2_5X => 4840,
            MLX90393GAIN::GAIN2X => 3872,
            MLX90393GAIN::GAIN1_67X => 3227,
            MLX90393GAIN::GAIN1_33X => 2581,
            MLX90393GAIN::GAIN1X => 1936,
        },
    }
}

/// Every scale factor is positive and at most 9680 milli-µT per count.
pub proof fn lemma_scale_bounds(resolution: MLX90393RESOLUTION, gain: MLX90393GAIN)
    ensures
        0 < scale_xy(resolution, gain) <= 9680,
        0 < scale_z(resolution, gain) <= 9680,
{
}

/// Executable lookup of the `(x/y, z)` scale pair in milli-µT per count.
pub fn scale_pair(resolution: MLX90393RESOLUTION, gain: MLX90393GAIN) -> (r: (u32, u32))
    ensures
        r.0 == scale_xy(resolution, gain),
        r.1 == scale_z(resolution, gain),
{
    match resolution {
        MLX90393RESOLUTION::RES16 => match gain {
            MLX90393GAIN::GAIN5X => (751, 1210),
            MLX90393GAIN::GAIN4X => (601, 968),
            MLX90393GAIN::GAIN3X => (451, 726),
            MLX90393GAIN::GAIN2_5X => (376, 605),
            MLX90393GAIN::GAIN2X => (300, 484),
            MLX90393GAIN::GAIN1_67X => (250, 403),
            MLX90393GAIN::GAIN1_33X => (200, 323),
            MLX90393GAIN::GAIN1X => (150, 242),
        },
        MLX90393RESOLUTION::RES17 => match gain {
            MLX90393GAIN::GAIN5X => (1502, 2420),
            MLX90393GAIN::GAIN4X => (1202, 1936),
            MLX90393GAIN::GAIN3X => (901, 1452),
            MLX90393GAIN::GAIN2_5X => (751, 1210),
            MLX90393GAIN::GAIN2X => (601, 968),
            MLX90393GAIN::GAIN1_67X => (501, 807),
            MLX90393GAIN::GAIN1_33X => (401, 645),
            MLX90393GAIN::GAIN1X => (300, 484),
        },
        MLX90393RESOLUTION::RES18 => match gain {
            MLX90393GAIN::GAIN5X => (3004, 4840),
            MLX90393GAIN::GAIN4X => (2403, 3872),
            MLX90393GAIN::GAIN3X => (1803, 2904),
            MLX90393GAIN::GAIN2_5X => (1502, 2420),
            MLX90393GAIN::GAIN2X => (1202, 1936),
            MLX90393GAIN::GAIN1_67X => (1001, 1613),
            MLX90393GAIN::GAIN1_33X => (801, 1291),
            MLX90393GAIN::GAIN1X => (601, 968),
        },
        MLX90393RESOLUTION::RES19 => match gain {
            MLX90393GAIN::GAIN5X => (6009, 9680),
            MLX90393GAIN::GAIN4X => (4840, 7744),
            MLX90393GAIN::GAIN3X => (3605, 5808),
            MLX90393GAIN::GAIN2_5X => (3004, 4840),
            MLX90393GAIN::GAIN2X => (2403, 3872),
            MLX90393GAIN::GAIN1_67X => (2003, 3227),
            MLX90393GAIN::GAIN1_33X => (1602, 2581),
            MLX90393GAIN::GAIN1X => (1202, 1936),
        },
    }
}

/// Convert a raw X- or Y-axis count to milli-µT: the count times the
/// configuration's x/y scale factor, exactly.
pub fn decode_xy(raw: i16, resolution: MLX90393RESOLUTION, gain: MLX90393GAIN) -> (r: i64)
    ensures
        r == raw * scale_xy(resolution, gain),
        -MAG_LIMIT <= r <= MAG_LIMIT,
{
    let scale = scale_pair(resolution, gain).0;
    proof {
        lemma_scale_bounds(resolution, gain);
        assert(-MAG_LIMIT <= raw * scale_xy(resolution, gain) <= MAG_LIMIT) by (nonlinear_arith)
            requires
                -32768 <= raw <= 32767,
                0 < scale_xy(resolution, gain) <= 9680,
                scale == scale_xy(resolution, gain),
                MAG_LIMIT == 400_000_000,
        ;
    }
    (raw as i64) * (scale as i64)
}

/// Convert a raw Z-axis count to milli-µT: the count times the
/// configuration's z scale factor, exactly.
pub fn decode_z(raw: i16, resolution: MLX90393RESOLUTION, gain: MLX90393GAIN) -> (r: i64)
    ensures
        r == raw * scale_z(resolution, gain),
        -MAG_LIMIT <= r <= MAG_LIMIT,
{
    let scale = scale_pair(resolution, gain).1;
    proof {
        lemma_scale_bounds(resolution, gain);
        assert(-MAG_LIMIT <= raw * scale_z(resolution, gain) <= MAG_LIMIT) by (nonlinear_arith)
            requires
                -32768 <= raw <= 32767,
                0 < scale_z(resolution, gain) <= 9680,
                scale == scale_z(resolution, gain),
                MAG_LIMIT == 400_000_000,
        ;
    }
    (raw as i64) * (scale as i64)
}

} // verus!
