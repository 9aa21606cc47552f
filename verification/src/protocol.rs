//! Bus transaction layer: command/register frames and response decoding.
//!
//! Every transaction is a write of a small frame followed by a read whose
//! first byte is a status byte. Bit `0x10` of the status signals a device
//! error and fails the transaction; a mode-start command must additionally
//! be acknowledged by its mode bit (`0x20` single, `0x80` burst, `0x40`
//! wakeup) even when the error bit is clear. Axis readings travel as
//! big-endian signed 16-bit values.

use vstd::prelude::*;

use crate::defs::{MLX90393AXIS, MLX90393CMD, MLX90393REG};
use crate::error::MagError;

verus! {

/// Status-byte bit that signals a device error.
pub const STATUS_ERROR_BIT: u8 = 0x10;

/// Status-byte bit acknowledging single-measurement mode.
pub const SINGLE_MODE_ACK: u8 = 0x20;

/// Status-byte bit acknowledging burst mode.
pub const BURST_MODE_ACK: u8 = 0x80;

/// Status-byte bit acknowledging wakeup-on-change mode.
pub const WAKEUP_MODE_ACK: u8 = 0x40;

/// Whether a status byte carries the device error bit.
pub open spec fn status_has_error(status: u8) -> bool {
    status & STATUS_ERROR_BIT != 0
}

/// A raw axis reading: signed 16-bit counts for the three axes, straight off
/// the wire and not yet converted to physical units.
#[derive(Debug, Clone, Copy, PartialEq, Eq, Structural)]
pub struct RawMeasurement {
    pub x: i16,
    pub y: i16,
    pub z: i16,
}

/// The signed 16-bit value encoded big-endian by the byte pair `(hi, lo)`.
pub open spec fn be_i16(hi: u8, lo: u8) -> int {
    let unsigned = hi * 256 + lo;
    if unsigned >= 0x8000 {
        unsigned - 0x10000
    } else {
        unsigned
    }
}

/// A command byte with an axis mask OR-ed in.
pub fn command_byte(cmd: MLX90393CMD, axis: MLX90393AXIS) -> (r: u8)
    ensures
        r == cmd.tag() | axis.tag(),
{
    cmd.to_u8() | axis.to_u8()
}

/// The one-byte frame that asks the device for a measurement of all axes.
pub fn read_measurement_frame() -> (r: u8)
    ensures
        r == MLX90393CMD::RM.tag() | MLX90393AXIS::ALL.tag(),
        r == 0x4E,
{
    assert(0x40u8 | 0x0Eu8 == 0x4E) by (bit_vector);
    command_byte(MLX90393CMD::RM, MLX90393AXIS::ALL)
}

/// The two-byte frame that asks the device for a register's value.
pub fn read_register_frame(register: MLX90393REG) -> (r: Vec<u8>)
    ensures
        r@.len() == 2,
        r@[0] == MLX90393CMD::RR.tag(),
        r@[1] == register.tag() * 4,
{
    let tag = register.to_u8();
    assert(tag << 2 == tag * 4) by (bit_vector)
        requires
            tag < 3,
    ;
    let mut frame: Vec<u8> = Vec::new();
    frame.push(MLX90393CMD::RR.to_u8());
    frame.push(tag << 2);
    frame
}

/// The four-byte frame that writes a 16-bit value into a register: opcode,
/// value high byte, value low byte, shifted register index.
pub fn write_register_frame(register: MLX90393REG, value: u16) -> (r: Vec<u8>)
    ensures
        r@.len() == 4,
        r@[0] == MLX90393CMD::WR.tag(),
        r@[1] == value as int / 256,
        r@[2] == value as int % 256,
        r@[3] == register.tag() * 4,
{
    let tag = register.to_u8();
    assert(tag << 2 == tag * 4) by (bit_vector)
        requires
            tag < 3,
    ;
    assert((value >> 8) & 0xFF == value as int / 256 && value & 0xFF == value as int % 256)
        by (bit_vector);
    let mut frame: Vec<u8> = Vec::new();
    frame.push(MLX90393CMD::WR.to_u8());
    frame.push(((value >> 8) & 0xFF) as u8);
    frame.push((value & 0xFF) as u8);
    frame.push(tag << 2);
    frame
}

/// Check the status byte of a response that promises nothing beyond success:
/// the call fails exactly when the error bit is set, and the error carries
/// the raw status byte.
pub fn parse_status(status: u8) -> (r: Result<(), MagError>)
    ensures
        r is Ok <==> !status_has_error(status),
        r is Err ==> r->Err_0 == (MagError::Bus { status }),
{
    if status & STATUS_ERROR_BIT != 0 {
        Err(MagError::Bus { status })
    } else {
        Ok(())
    }
}

/// Check the status byte of a mode-start response: the error bit fails the
/// call as a bus error; with the error bit clear, a missing
/// mode-acknowledgement bit fails it as a protocol error.
pub fn parse_mode_ack(status: u8, ack_bit: u8) -> (r: Result<(), MagError>)
    ensures
        r is Ok <==> (!status_has_error(status) && status & ack_bit != 0),
        status_has_error(status) ==> r->Err_0 == (MagError::Bus { status }),
        (!status_has_error(status) && status & ack_bit == 0) ==> r->Err_0 == (MagError::Protocol {
            status,
        }),
{
    if status & STATUS_ERROR_BIT != 0 {
        Err(MagError::Bus { status })
    } else if status & ack_bit == 0 {
        Err(MagError::Protocol { status })
    } else {
        Ok(())
    }
}

/// Decode the three-byte response to a register read: status byte, then the
/// register value big-endian.
pub fn parse_read_register_response(response: &[u8]) -> (r: Result<u16, MagError>)
    requires
        response@.len() == 3,
    ensures
        r is Ok <==> !status_has_error(response@[0]),
        r is Ok ==> r->Ok_0 == response@[1] * 256 + response@[2],
        r is Err ==> r->Err_0 == (MagError::Bus { status: response@[0] }),
{
    let status = response[0];
    if status & STATUS_ERROR_BIT != 0 {
        return Err(MagError::Bus { status });
    }
    let hi = response[1];
    let lo = response[2];
    let value: u16 = ((hi as u16) << 8) | (lo as u16);
    assert(((hi as u16) << 8) | (lo as u16) == hi * 256 + lo) by (bit_vector);
    Ok(value)
}

/// Reassemble one big-endian signed 16-bit axis value from its two bytes.
pub fn be_i16_value(hi: u8, lo: u8) -> (r: i16)
    ensures
        r == be_i16(hi, lo),
{
    let unsigned: u16 = ((hi as u16) << 8) | (lo as u16);
    assert({
        let u = ((hi as u16) << 8) | (lo as u16);
        (u as i16) as int == if u >= 0x8000 {
            hi * 256 + lo - 0x10000
        } else {
            hi * 256 + lo
        }
    }) by (bit_vector);
    #[verifier::truncate]
    let signed = unsigned as i16;
    signed
}

/// Decode the nine-byte response to a measurement read: status byte, a
/// 16-bit temperature word that the compass ignores, then the X, Y and Z
/// readings, each big-endian signed 16-bit. The call fails exactly when the
/// status error bit is set.
pub fn parse_measurement_response(response: &[u8]) -> (r: Result<RawMeasurement, MagError>)
    requires
        response@.len() == 9,
    ensures
        r is Ok <==> !status_has_error(response@[0]),
        r is Ok ==> {
            &&& r->Ok_0.x == be_i16(response@[3], response@[4])
            &&& r->Ok_0.y == be_i16(response@[5], response@[6])
            &&& r->Ok_0.z == be_i16(response@[7], response@[8])
        },
        r is Err ==> r->Err_0 == (MagError::Bus { status: response@[0] }),
{
    let status = response[0];
    if status & STATUS_ERROR_BIT != 0 {
        return Err(MagError::Bus { status });
    }
    let x = be_i16_value(response[3], response[4]);
    let y = be_i16_value(response[5], response[6]);
    let z = be_i16_value(response[7], response[8]);
    Ok(RawMeasurement { x, y, z })
}

} // verus!
