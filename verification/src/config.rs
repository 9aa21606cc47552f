//! Configuration register fields and the configuration cache.
//!
//! The gain lives in bits 4–6 of `CONF1`; the per-axis resolutions live in
//! bits 5–6 (X), 7–8 (Y) and 9–10 (Z) of `CONF3`; the filter in bits 2–4 and
//! the oversampling in bits 0–1 of `CONF3`; `CONF2` carries the
//! trigger-interval enable (bit 15) and the wakeup-comparator enable
//! (bit 4). Each setter computes a read-modify-write image that changes its
//! own field and nothing else; the cache remembers what was last written so
//! repeated reads avoid a bus round trip.

use vstd::prelude::*;

use crate::defs::{
    MLX90393AXIS, MLX90393FILTER, MLX90393GAIN, MLX90393OVERSAMPLING, MLX90393RESOLUTION,
};
use crate::error::MagError;

verus! {

/// Gain field of a `CONF1` image: bits 4–6.
pub open spec fn gain_field(conf1: u16) -> u16 {
    (conf1 & 0x0070) >> 4
}

/// X-resolution field of a `CONF3` image: bits 5–6.
pub open spec fn res_x_field(conf3: u16) -> u16 {
    (conf3 & 0x0060) >> 5
}

/// Y-resolution field of a `CONF3` image: bits 7–8.
pub open spec fn res_y_field(conf3: u16) -> u16 {
    (conf3 & 0x0180) >> 7
}

/// Z-resolution field of a `CONF3` image: bits 9–10.
pub open spec fn res_z_field(conf3: u16) -> u16 {
    (conf3 & 0x0600) >> 9
}

/// Filter field of a `CONF3` image: bits 2–4.
pub open spec fn filter_field(conf3: u16) -> u16 {
    (conf3 & 0x001C) >> 2
}

/// Oversampling field of a `CONF3` image: bits 0–1.
pub open spec fn oversampling_field(conf3: u16) -> u16 {
    conf3 & 0x0003
}

/// Trigger-interval enable bit of a `CONF2` image.
pub open spec fn trigger_interval_bit(conf2: u16) -> bool {
    conf2 & 0x8000 != 0
}

/// Wakeup-comparator enable bit of a `CONF2` image.
pub open spec fn wakeup_comparator_bit(conf2: u16) -> bool {
    conf2 & 0x0010 != 0
}

/// New `CONF1` image with the gain field set and every other bit kept.
pub fn with_gain(conf1: u16, gain: MLX90393GAIN) -> (r: u16)
    ensures
        gain_field(r) == gain.tag(),
        r & 0xFF8F == conf1 & 0xFF8F,
{
    let tag = gain.to_u8();
    let r = (conf1 & 0xFF8F) | ((tag as u16) << 4);
    assert((((conf1 & 0xFF8F) | ((tag as u16) << 4)) & 0x0070) >> 4 == tag && ((conf1 & 0xFF8F) | (
    (tag as u16) << 4)) & 0xFF8F == conf1 & 0xFF8F) by (bit_vector)
        requires
            tag < 8,
    ;
    r
}

/// The gain a `CONF1` image encodes.
pub fn gain_from_register(conf1: u16) -> (r: MLX90393GAIN)
    ensures
        r.tag() == gain_field(conf1),
{
    let field = ((conf1 & 0x0070) >> 4) as u8;
    assert(((conf1 & 0x0070) >> 4) < 8) by (bit_vector);
    MLX90393GAIN::from_u8(field).unwrap()
}

/// New `CONF3` image with one axis' resolution field set and every other
/// bit kept; the `ALL` mask addresses no single field and is rejected.
pub fn with_resolution(conf3: u16, axis: MLX90393AXIS, resolution: MLX90393RESOLUTION) -> (r:
    Result<u16, MagError>)
    ensures
        r is Ok <==> axis != MLX90393AXIS::ALL,
        r is Err ==> r->Err_0 == MagError::InvalidArgument,
        r is Ok ==> match axis {
            MLX90393AXIS::X => res_x_field(r->Ok_0) == resolution.tag() && r->Ok_0 & 0xFF9F == conf3
                & 0xFF9F,
            MLX90393AXIS::Y => res_y_field(r->Ok_0) == resolution.tag() && r->Ok_0 & 0xFE7F == conf3
                & 0xFE7F,
            MLX90393AXIS::Z => res_z_field(r->Ok_0) == resolution.tag() && r->Ok_0 & 0xF9FF == conf3
                & 0xF9FF,
            MLX90393AXIS::ALL => false,
        },
{
    let tag = resolution.to_u8();
    match axis {
        MLX90393AXIS::X => {
            let r = (conf3 & 0xFF9F) | ((tag as u16) << 5);
            assert((((conf3 & 0xFF9F) | ((tag as u16) << 5)) & 0x0060) >> 5 == tag && ((conf3
                & 0xFF9F) | ((tag as u16) << 5)) & 0xFF9F == conf3 & 0xFF9F) by (bit_vector)
                requires
                    tag < 4,
            ;
            Ok(r)
        },
        MLX90393AXIS::Y => {
            let r = (conf3 & 0xFE7F) | ((tag as u16) << 7);
            assert((((conf3 & 0xFE7F) | ((tag as u16) << 7)) & 0x0180) >> 7 == tag && ((conf3
                & 0xFE7F) | ((tag as u16) << 7)) & 0xFE7F == conf3 & 0xFE7F) by (bit_vector)
                requires
                    tag < 4,
            ;
            Ok(r)
        },
        MLX90393AXIS::Z => {
            let r = (conf3 & 0xF9FF) | ((tag as u16) << 9);
            assert((((conf3 & 0xF9FF) | ((tag as u16) << 9)) & 0x0600) >> 9 == tag && ((conf3
                & 0xF9FF) | ((tag as u16) << 9)) & 0xF9FF == conf3 & 0xF9FF) by (bit_vector)
                requires
                    tag < 4,
            ;
            Ok(r)
        },
        MLX90393AXIS::ALL => Err(MagError::InvalidArgument),
    }
}

/// The resolution one axis' field of a `CONF3` image encodes; the `ALL`
/// mask addresses no single field and is rejected.
pub fn resolution_from_register(conf3: u16, axis: MLX90393AXIS) -> (r: Result<
    MLX90393RESOLUTION,
    MagError,
>)
    ensures
        r is Ok <==> axis != MLX90393AXIS::ALL,
        r is Err ==> r->Err_0 == MagError::InvalidArgument,
        r is Ok ==> match axis {
            MLX90393AXIS::X => r->Ok_0.tag() == res_x_field(conf3),
            MLX90393AXIS::Y => r->Ok_0.tag() == res_y_field(conf3),
            MLX90393AXIS::Z => r->Ok_0.tag() == res_z_field(conf3),
            MLX90393AXIS::ALL => false,
        },
{
    let field: u8 = match axis {
        MLX90393AXIS::X => {
            assert(((conf3 & 0x0060) >> 5) < 4) by (bit_vector);
            ((conf3 & 0x0060) >> 5) as u8
        },
        MLX90393AXIS::Y => {
            assert(((conf3 & 0x0180) >> 7) < 4) by (bit_vector);
            ((conf3 & 0x0180) >> 7) as u8
        },
        MLX90393AXIS::Z => {
            assert(((conf3 & 0x0600) >> 9) < 4) by (bit_vector);
            ((conf3 & 0x0600) >> 9) as u8
        },
        MLX90393AXIS::ALL => {
            return Err(MagError::InvalidArgument);
        },
    };
    Ok(MLX90393RESOLUTION::from_u8(field).unwrap())
}

/// New `CONF3` image with the filter field set and every other bit kept.
pub fn with_filter(conf3: u16, filter: MLX90393FILTER) -> (r: u16)
    ensures
        filter_field(r) == filter.tag(),
        r & 0xFFE3 == conf3 & 0xFFE3,
{
    let tag = filter.to_u8();
    let r = (conf3 & 0xFFE3) | ((tag as u16) << 2);
    assert((((conf3 & 0xFFE3) | ((tag as u16) << 2)) & 0x001C) >> 2 == tag && ((conf3 & 0xFFE3) | (
    (tag as u16) << 2)) & 0xFFE3 == conf3 & 0xFFE3) by (bit_vector)
        requires
            tag < 8,
    ;
    r
}

/// The filter a `CONF3` image encodes.
pub fn filter_from_register(conf3: u16) -> (r: MLX90393FILTER)
    ensures
        r.tag() == filter_field(conf3),
{
    let field = ((conf3 & 0x001C) >> 2) as u8;
    assert(((conf3 & 0x001C) >> 2) < 8) by (bit_vector);
    MLX90393FILTER::from_u8(field).unwrap()
}

/// New `CONF3` image with the oversampling field set and every other bit
/// kept.
pub fn with_oversampling(conf3: u16, oversampling: MLX90393OVERSAMPLING) -> (r: u16)
    ensures
        oversampling_field(r) == oversampling.tag(),
        r & 0xFFFC == conf3 & 0xFFFC,
{
    let tag = oversampling.to_u8();
    let r = (conf3 & 0xFFFC) | (tag as u16);
    assert((((conf3 & 0xFFFC) | (tag as u16)) & 0x0003) == tag && ((conf3 & 0xFFFC) | (tag as u16))
        & 0xFFFC == conf3 & 0xFFFC) by (bit_vector)
        requires
            tag < 4,
    ;
    r
}

/// The oversampling ratio a `CONF3` image encodes.
pub fn oversampling_from_register(conf3: u16) -> (r: MLX90393OVERSAMPLING)
    ensures
        r.tag() == oversampling_field(conf3),
{
    let field = (conf3 & 0x0003) as u8;
    assert((conf3 & 0x0003) < 4) by (bit_vector);
    MLX90393OVERSAMPLING::from_u8(field).unwrap()
}

/// New `CONF2` image with the trigger-interval enable bit set or cleared
/// and every other bit kept.
pub fn with_trigger_interval(conf2: u16, enabled: bool) -> (r: u16)
    ensures
        trigger_interval_bit(r) == enabled,
        r & 0x7FFF == conf2 & 0x7FFF,
{
    if enabled {
        let r = conf2 | 0x8000;
        assert((conf2 | 0x8000) & 0x8000 != 0 && (conf2 | 0x8000) & 0x7FFF == conf2 & 0x7FFF)
            by (bit_vector);
        r
    } else {
        let r = conf2 & 0x7FFF;
        assert((conf2 & 0x7FFF) & 0x8000 == 0 && (conf2 & 0x7FFF) & 0x7FFF == conf2 & 0x7FFF)
            by (bit_vector);
        r
    }
}

/// New `CONF2` image with the wakeup-comparator enable bit set or cleared
/// and every other bit kept.
pub fn with_wakeup_comparator(conf2: u16, enabled: bool) -> (r: u16)
    ensures
        wakeup_comparator_bit(r) == enabled,
        r & 0xFFEF == conf2 & 0xFFEF,
{
    if enabled {
        let r = conf2 | 0x0010;
        assert((conf2 | 0x0010) & 0x0010 != 0 && (conf2 | 0x0010) & 0xFFEF == conf2 & 0xFFEF)
            by (bit_vector);
        r
    } else {
        let r = conf2 & 0xFFEF;
        assert((conf2 & 0xFFEF) & 0x0010 == 0 && (conf2 & 0xFFEF) & 0xFFEF == conf2 & 0xFFEF)
            by (bit_vector);
        r
    }
}

/// The full device configuration the compass runs with.
#[derive(Debug, Clone, Copy, PartialEq, Eq, Structural)]
pub struct DeviceConfig {
    pub gain: MLX90393GAIN,
    pub res_x: MLX90393RESOLUTION,
    pub res_y: MLX90393RESOLUTION,
    pub res_z: MLX90393RESOLUTION,
    pub oversampling: MLX90393OVERSAMPLING,
    pub filter: MLX90393FILTER,
}

/// The configuration written at bring-up, after the exit-mode and reset
/// commands: unit gain, 19-bit X and Y, 16-bit Z, strongest oversampling,
/// and the second-strongest filter.
pub fn startup_config() -> (r: DeviceConfig)
    ensures
        r.gain == MLX90393GAIN::GAIN1X,
        r.res_x == MLX90393RESOLUTION::RES19,
        r.res_y == MLX90393RESOLUTION::RES19,
        r.res_z == MLX90393RESOLUTION::RES16,
        r.oversampling == MLX90393OVERSAMPLING::OSR3,
        r.filter == MLX90393FILTER::FILTER5,
{
    DeviceConfig {
        gain: MLX90393GAIN::GAIN1X,
        res_x: MLX90393RESOLUTION::RES19,
        res_y: MLX90393RESOLUTION::RES19,
        res_z: MLX90393RESOLUTION::RES16,
        oversampling: MLX90393OVERSAMPLING::OSR3,
        filter: MLX90393FILTER::FILTER5,
    }
}

/// Cache of the device configuration last written over the bus.
///
/// `None` in a field means the device's value is unknown and must be read
/// over the bus; a getter never invents a value for an unknown field. The
/// resolution cache keeps the whole `CONF3` image that was last written, as
/// the three axis fields live side by side in it.
pub struct ConfigCache {
    pub current_gain: Option<MLX90393GAIN>,
    pub current_resolution: Option<u16>,
    pub current_filter: Option<MLX90393FILTER>,
    pub current_oversampling: Option<MLX90393OVERSAMPLING>,
}

impl ConfigCache {
    /// The cache as it stands after a successful gain write.
    pub open spec fn noted_gain(self, gain: MLX90393GAIN) -> ConfigCache {
        ConfigCache { current_gain: Some(gain), ..self }
    }

    /// What a cache read of the gain returns: the cached value, `None` when
    /// the device's gain is unknown.
    pub open spec fn cached_gain(self) -> Option<MLX90393GAIN> {
        self.current_gain
    }

    /// A cache that knows nothing yet.
    pub fn new() -> (r: ConfigCache)
        ensures
            r.current_gain is None,
            r.current_resolution is None,
            r.current_filter is None,
            r.current_oversampling is None,
    {
        ConfigCache {
            current_gain: None,
            current_resolution: None,
            current_filter: None,
            current_oversampling: None,
        }
    }

    /// Record the gain after it was successfully written to the device.
    pub fn note_gain(&mut self, gain: MLX90393GAIN)
        ensures
            *final(self) == old(self).noted_gain(gain),
    {
        self.current_gain = Some(gain);
    }

    /// Record the `CONF3` image after it was successfully written.
    pub fn note_resolution(&mut self, conf3: u16)
        ensures
            final(self).current_resolution == Some(conf3),
            final(self).current_gain == old(self).current_gain,
            final(self).current_filter == old(self).current_filter,
            final(self).current_oversampling == old(self).current_oversampling,
    {
        self.current_resolution = Some(conf3);
    }

    /// Record the filter after it was successfully written to the device.
    pub fn note_filter(&mut self, filter: MLX90393FILTER)
        ensures
            final(self).current_filter == Some(filter),
            final(self).current_gain == old(self).current_gain,
            final(self).current_resolution == old(self).current_resolution,
            final(self).current_oversampling == old(self).current_oversampling,
    {
        self.current_filter = Some(filter);
    }

    /// Record the oversampling after it was successfully written.
    pub fn note_oversampling(&mut self, oversampling: MLX90393OVERSAMPLING)
        ensures
            final(self).current_oversampling == Some(oversampling),
            final(self).current_gain == old(self).current_gain,
            final(self).current_resolution == old(self).current_resolution,
            final(self).current_filter == old(self).current_filter,
    {
        self.current_oversampling = Some(oversampling);
    }

    /// The cached gain; `None` asks the caller to read the device instead.
    /// Reading the cache never changes it, so two reads after one write
    /// return the same value without touching the bus.
    pub fn get_gain(&self) -> (r: Option<MLX90393GAIN>)
        ensures
            r == self.cached_gain(),
    {
        self.current_gain
    }

    /// The cached resolution of one axis, decoded from the cached `CONF3`
    /// image; `Ok(None)` asks the caller to read the device instead, and
    /// the `ALL` mask is rejected.
    pub fn get_resolution(&self, axis: MLX90393AXIS) -> (r: Result<
        Option<MLX90393RESOLUTION>,
        MagError,
    >)
        ensures
            r is Ok <==> axis != MLX90393AXIS::ALL,
            r is Err ==> r->Err_0 == MagError::InvalidArgument,
            r is Ok ==> match self.current_resolution {
                Some(conf3) => r->Ok_0 is Some && match axis {
                    MLX90393AXIS::X => r->Ok_0->Some_0.tag() == res_x_field(conf3),
                    MLX90393AXIS::Y => r->Ok_0->Some_0.tag() == res_y_field(conf3),
                    MLX90393AXIS::Z => r->Ok_0->Some_0.tag() == res_z_field(conf3),
                    MLX90393AXIS::ALL => false,
                },
                None => r->Ok_0 is None,
            },
    {
        if matches!(axis, MLX90393AXIS::ALL) {
            return Err(MagError::InvalidArgument);
        }
        match self.current_resolution {
            Some(conf3) => {
                let res = resolution_from_register(conf3, axis)?;
                Ok(Some(res))
            },
            None => Ok(None),
        }
    }

    /// The cached filter; `None` asks the caller to read the device.
    pub fn get_filter(&self) -> (r: Option<MLX90393FILTER>)
        ensures
            r == self.current_filter,
    {
        self.current_filter
    }

    /// The cached oversampling; `None` asks the caller to read the device.
    pub fn get_oversampling(&self) -> (r: Option<MLX90393OVERSAMPLING>)
        ensures
            r == self.current_oversampling,
    {
        self.current_oversampling
    }
}

/// After one gain write the cache answers every later gain read with
/// exactly the written value: `get_gain` returns `cached_gain`, reading
/// borrows the cache immutably, so the second read returns the same
/// `Some(gain)` as the first with no bus traffic in between.
pub proof fn lemma_gain_read_idempotent(cache: ConfigCache, gain: MLX90393GAIN)
    ensures
        cache.noted_gain(gain).cached_gain() == Some(gain),
{
}

} // verus!
