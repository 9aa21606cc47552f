//! Device registers, command opcodes, axis masks and configuration tags.
//!
//! Every enum here stands for a small integer that travels over the bus.
//! Each decoding is fallible (`from_u8` returns `None` on a byte the device
//! never sends), so malformed bus data is recoverable rather than an abort.

use vstd::prelude::*;

verus! {

/// Addressable device configuration registers.
#[derive(Debug, Clone, Copy, PartialEq, Eq, Structural)]
pub enum MLX90393REG {
    CONF1,
    CONF2,
    CONF3,
}

impl MLX90393REG {
    /// Register index as it appears (shifted) in bus frames.
    pub open spec fn tag(self) -> u8 {
        match self {
            MLX90393REG::CONF1 => 0x00,
            MLX90393REG::CONF2 => 0x01,
            MLX90393REG::CONF3 => 0x02,
        }
    }

    /// Executable form of [`MLX90393REG::tag`].
    pub fn to_u8(self) -> (r: u8)
        ensures
            r == self.tag(),
    {
        match self {
            MLX90393REG::CONF1 => 0x00,
            MLX90393REG::CONF2 => 0x01,
            MLX90393REG::CONF3 => 0x02,
        }
    }
}

/// One-byte command opcodes; the mode-start and read commands are OR-ed with
/// an axis mask on the wire.
#[derive(Debug, Clone, Copy, PartialEq, Eq, Structural)]
pub enum MLX90393CMD {
    /// Start burst mode.
    SB,
    /// Start wakeup-on-change mode.
    SW,
    /// Start single-measurement mode.
    SM,
    /// Read measurement.
    RM,
    /// Read register.
    RR,
    /// Write register.
    WR,
    /// Exit mode.
    EX,
    /// Memory recall.
    HR,
    /// Memory store.
    HS,
    /// Reset.
    RT,
    /// No operation.
    NOP,
}

impl MLX90393CMD {
    /// Opcode byte of the command.
    pub open spec fn tag(self) -> u8 {
        match self {
            MLX90393CMD::SB => 0x10,
            MLX90393CMD::SW => 0x20,
            MLX90393CMD::SM => 0x30,
            MLX90393CMD::RM => 0x40,
            MLX90393CMD::RR => 0x50,
            MLX90393CMD::WR => 0x60,
            MLX90393CMD::EX => 0x80,
            MLX90393CMD::HR => 0xD0,
            MLX90393CMD::HS => 0x70,
            MLX90393CMD::RT => 0xF0,
            MLX90393CMD::NOP => 0x00,
        }
    }

    /// Executable form of [`MLX90393CMD::tag`].
    pub fn to_u8(self) -> (r: u8)
        ensures
            r == self.tag(),
    {
        match self {
            MLX90393CMD::SB => 0x10,
            MLX90393CMD::SW => 0x20,
            MLX90393CMD::SM => 0x30,
            MLX90393CMD::RM => 0x40,
            MLX90393CMD::RR => 0x50,
            MLX90393CMD::WR => 0x60,
            MLX90393CMD::EX => 0x80,
            MLX90393CMD::HR => 0xD0,
            MLX90393CMD::HS => 0x70,
            MLX90393CMD::RT => 0xF0,
            MLX90393CMD::NOP => 0x00,
        }
    }

    /// Decode an opcode byte; `None` for a byte that is no command.
    pub fn from_u8(v: u8) -> (r: Option<MLX90393CMD>)
        ensures
            match r {
                Some(c) => c.tag() == v,
                None => forall|c: MLX90393CMD| c.tag() != v,
            },
    {
        match v {
            0x10 => Some(MLX90393CMD::SB),
            0x20 => Some(MLX90393CMD::SW),
            0x30 => Some(MLX90393CMD::SM),
            0x40 => Some(MLX90393CMD::RM),
            0x50 => Some(MLX90393CMD::RR),
            0x60 => Some(MLX90393CMD::WR),
            0x80 => Some(MLX90393CMD::EX),
            0xD0 => Some(MLX90393CMD::HR),
            0x70 => Some(MLX90393CMD::HS),
            0xF0 => Some(MLX90393CMD::RT),
            0x00 => Some(MLX90393CMD::NOP),
            _ => None,
        }
    }
}

/// Analog gain, ordered from the strongest (5x) to the weakest (1x)
/// amplification; the tag is the value of the three-bit register field.
#[derive(Debug, Clone, Copy, PartialEq, Eq, Structural)]
pub enum MLX90393GAIN {
    GAIN5X,
    GAIN4X,
    GAIN3X,
    GAIN2_5X,
    GAIN2X,
    GAIN1_67X,
    GAIN1_33X,
    GAIN1X,
}

impl MLX90393GAIN {
    /// Three-bit register field value of the gain.
    pub open spec fn tag(self) -> u8 {
        match self {
            MLX90393GAIN::GAIN5X => 0x00,
            MLX90393GAIN::GAIN4X => 0x01,
            MLX90393GAIN::GAIN3X => 0x02,
            MLX90393GAIN::GAIN2_5X => 0x03,
            MLX90393GAIN::GAIN2X => 0x04,
            MLX90393GAIN::GAIN1_67X => 0x05,
            MLX90393GAIN::GAIN1_33X => 0x06,
            MLX90393GAIN::GAIN1X => 0x07,
        }
    }

    /// Executable form of [`MLX90393GAIN::tag`].
    pub fn to_u8(self) -> (r: u8)
        ensures
            r == self.tag(),
            r < 8,
    {
        match self {
            MLX90393GAIN::GAIN5X => 0x00,
            MLX90393GAIN::GAIN4X => 0x01,
            MLX90393GAIN::GAIN3X => 0x02,
            MLX90393GAIN::GAIN2_5X => 0x03,
            MLX90393GAIN::GAIN2X => 0x04,
            MLX90393GAIN::GAIN1_67X => 0x05,
            MLX90393GAIN::GAIN1_33X => 0x06,
            MLX90393GAIN::GAIN1X => 0x07,
        }
    }

    /// Decode a three-bit field value; `None` above 7.
    pub fn from_u8(v: u8) -> (r: Option<MLX90393GAIN>)
        ensures
            r is Some <==> v < 8,
            r is Some ==> r->Some_0.tag() == v,
    {
        match v {
            0x00 => Some(MLX90393GAIN::GAIN5X),
            0x01 => Some(MLX90393GAIN::GAIN4X),
            0x02 => Some(MLX90393GAIN::GAIN3X),
            0x03 => Some(MLX90393GAIN::GAIN2_5X),
            0x04 => Some(MLX90393GAIN::GAIN2X),
            0x05 => Some(MLX90393GAIN::GAIN1_67X),
            0x06 => Some(MLX90393GAIN::GAIN1_33X),
            0x07 => Some(MLX90393GAIN::GAIN1X),
            _ => None,
        }
    }
}

/// Per-axis sample bit depth; the tag is the value of the two-bit register
/// field.
#[derive(Debug, Clone, Copy, PartialEq, Eq, Structural)]
pub enum MLX90393RESOLUTION {
    RES16,
    RES17,
    RES18,
    RES19,
}

impl MLX90393RESOLUTION {
    /// Two-bit register field value of the resolution.
    pub open spec fn tag(self) -> u8 {
        match self {
            MLX90393RESOLUTION::RES16 => 0x00,
            MLX90393RESOLUTION::RES17 => 0x01,
            MLX90393RESOLUTION::RES18 => 0x02,
            MLX90393RESOLUTION::RES19 => 0x03,
        }
    }

    /// Executable form of [`MLX90393RESOLUTION::tag`].
    pub fn to_u8(self) -> (r: u8)
        ensures
            r == self.tag(),
            r < 4,
    {
        match self {
            MLX90393RESOLUTION::RES16 => 0x00,
            MLX90393RESOLUTION::RES17 => 0x01,
            MLX90393RESOLUTION::RES18 => 0x02,
            MLX90393RESOLUTION::RES19 => 0x03,
        }
    }

    /// Decode a two-bit field value; `None` above 3.
    pub fn from_u8(v: u8) -> (r: Option<MLX90393RESOLUTION>)
        ensures
            r is Some <==> v < 4,
            r is Some ==> r->Some_0.tag() == v,
    {
        match v {
            0x00 => Some(MLX90393RESOLUTION::RES16),
            0x01 => Some(MLX90393RESOLUTION::RES17),
            0x02 => Some(MLX90393RESOLUTION::RES18),
            0x03 => Some(MLX90393RESOLUTION::RES19),
            _ => None,
        }
    }
}

/// Axis selection masks; `ALL` addresses the three axes at once and is
/// rejected by the per-axis configuration operations.
#[derive(Debug, Clone, Copy, PartialEq, Eq, Structural)]
pub enum MLX90393AXIS {
    X,
    Y,
    Z,
    ALL,
}

impl MLX90393AXIS {
    /// Bit mask of the axis selection as it is OR-ed into a command byte.
    pub open spec fn tag(self) -> u8 {
        match self {
            MLX90393AXIS::X => 0x02,
            MLX90393AXIS::Y => 0x04,
            MLX90393AXIS::Z => 0x08,
            MLX90393AXIS::ALL => 0x0E,
        }
    }

    /// Executable form of [`MLX90393AXIS::tag`].
    pub fn to_u8(self) -> (r: u8)
        ensures
            r == self.tag(),
    {
        match self {
            MLX90393AXIS::X => 0x02,
            MLX90393AXIS::Y => 0x04,
            MLX90393AXIS::Z => 0x08,
            MLX90393AXIS::ALL => 0x0E,
        }
    }

    /// Decode an axis mask; `None` for any other byte.
    pub fn from_u8(v: u8) -> (r: Option<MLX90393AXIS>)
        ensures
            match r {
                Some(a) => a.tag() == v,
                None => forall|a: MLX90393AXIS| a.tag() != v,
            },
    {
        match v {
            0x02 => Some(MLX90393AXIS::X),
            0x04 => Some(MLX90393AXIS::Y),
            0x08 => Some(MLX90393AXIS::Z),
            0x0E => Some(MLX90393AXIS::ALL),
            _ => None,
        }
    }
}

/// Digital filter strength; the tag is the value of the three-bit register
/// field.
#[derive(Debug, Clone, Copy, PartialEq, Eq, Structural)]
pub enum MLX90393FILTER {
    FILTER0,
    FILTER1,
    FILTER2,
    FILTER3,
    FILTER4,
    FILTER5,
    FILTER6,
    FILTER7,
}

impl MLX90393FILTER {
    /// Three-bit register field value of the filter setting.
    pub open spec fn tag(self) -> u8 {
        match self {
            MLX90393FILTER::FILTER0 => 0x00,
            MLX90393FILTER::FILTER1 => 0x01,
            MLX90393FILTER::FILTER2 => 0x02,
            MLX90393FILTER::FILTER3 => 0x03,
            MLX90393FILTER::FILTER4 => 0x04,
            MLX90393FILTER::FILTER5 => 0x05,
            MLX90393FILTER::FILTER6 => 0x06,
            MLX90393FILTER::FILTER7 => 0x07,
        }
    }

    /// Executable form of [`MLX90393FILTER::tag`].
    pub fn to_u8(self) -> (r: u8)
        ensures
            r == self.tag(),
            r < 8,
    {
        match self {
            MLX90393FILTER::FILTER0 => 0x00,
            MLX90393FILTER::FILTER1 => 0x01,
            MLX90393FILTER::FILTER2 => 0x02,
            MLX90393FILTER::FILTER3 => 0x03,
            MLX90393FILTER::FILTER4 => 0x04,
            MLX90393FILTER::FILTER5 => 0x05,
            MLX90393FILTER::FILTER6 => 0x06,
            MLX90393FILTER::FILTER7 => 0x07,
        }
    }

    /// Decode a three-bit field value; `None` above 7.
    pub fn from_u8(v: u8) -> (r: Option<MLX90393FILTER>)
        ensures
            r is Some <==> v < 8,
            r is Some ==> r->Some_0.tag() == v,
    {
        match v {
            0x00 => Some(MLX90393FILTER::FILTER0),
            0x01 => Some(MLX90393FILTER::FILTER1),
            0x02 => Some(MLX90393FILTER::FILTER2),
            0x03 => Some(MLX90393FILTER::FILTER3),
            0x04 => Some(MLX90393FILTER::FILTER4),
            0x05 => Some(MLX90393FILTER::FILTER5),
            0x06 => Some(MLX90393FILTER::FILTER6),
            0x07 => Some(MLX90393FILTER::FILTER7),
            _ => None,
        }
    }
}

/// Oversampling ratio; the tag is the value of the two-bit register field.
#[derive(Debug, Clone, Copy, PartialEq, Eq, Structural)]
pub enum MLX90393OVERSAMPLING {
    OSR0,
    OSR1,
    OSR2,
    OSR3,
}

impl MLX90393OVERSAMPLING {
    /// Two-bit register field value of the oversampling ratio.
    pub open spec fn tag(self) -> u8 {
        match self {
            MLX90393OVERSAMPLING::OSR0 => 0x00,
            MLX90393OVERSAMPLING::OSR1 => 0x01,
            MLX90393OVERSAMPLING::OSR2 => 0x02,
            MLX90393OVERSAMPLING::OSR3 => 0x03,
        }
    }

    /// Executable form of [`MLX90393OVERSAMPLING::tag`].
    pub fn to_u8(self) -> (r: u8)
        ensures
            r == self.tag(),
            r < 4,
    {
        match self {
            MLX90393OVERSAMPLING::OSR0 => 0x00,
            MLX90393OVERSAMPLING::OSR1 => 0x01,
            MLX90393OVERSAMPLING::OSR2 => 0x02,
            MLX90393OVERSAMPLING::OSR3 => 0x03,
        }
    }

    /// Decode a two-bit field value; `None` above 3.
    pub fn from_u8(v: u8) -> (r: Option<MLX90393OVERSAMPLING>)
        ensures
            r is Some <==> v < 4,
            r is Some ==> r->Some_0.tag() == v,
    {
        match v {
            0x00 => Some(MLX90393OVERSAMPLING::OSR0),
            0x01 => Some(MLX90393OVERSAMPLING::OSR1),
            0x02 => Some(MLX90393OVERSAMPLING::OSR2),
            0x03 => Some(MLX90393OVERSAMPLING::OSR3),
            _ => None,
        }
    }
}

/// Mutually exclusive operating mode of the sensor; transitions go only
/// through the lifecycle controller.
#[derive(Debug, Clone, Copy, PartialEq, Eq, Structural)]
pub enum MagSensorState {
    Idle,
    Calibrating,
    Measuring,
}

impl MagSensorState {
    /// Small-integer encoding of the state.
    pub open spec fn tag(self) -> u8 {
        match self {
            MagSensorState::Idle => 0x00,
            MagSensorState::Calibrating => 0x01,
            MagSensorState::Measuring => 0x02,
        }
    }

    /// Executable form of [`MagSensorState::tag`].
    pub fn to_u8(self) -> (r: u8)
        ensures
            r == self.tag(),
            r < 3,
    {
        match self {
            MagSensorState::Idle => 0x00,
            MagSensorState::Calibrating => 0x01,
            MagSensorState::Measuring => 0x02,
        }
    }

    /// Decode a state byte; `None` above 2.
    pub fn from_u8(v: u8) -> (r: Option<MagSensorState>)
        ensures
            r is Some <==> v < 3,
            r is Some ==> r->Some_0.tag() == v,
    {
        match v {
            0x00 => Some(MagSensorState::Idle),
            0x01 => Some(MagSensorState::Calibrating),
            0x02 => Some(MagSensorState::Measuring),
            _ => None,
        }
    }
}

} // verus!
