//! The wireless configuration link's command set and value encoding.
//!
//! The link carries one-byte commands and a user declination as a
//! little-endian signed 32-bit value; the transport itself lives in the
//! runtime, which hands the received bytes to the decoders here.

use vstd::prelude::*;

verus! {

/// A command received over the wireless configuration link.
#[derive(Debug, Clone, Copy, PartialEq, Eq, Structural)]
pub enum BluetoothCommand {
    Unknown,
    ResetCalibrationData,
    Calibrate,
}

impl BluetoothCommand {
    /// Wire byte of the command.
    pub open spec fn tag(self) -> u8 {
        match self {
            BluetoothCommand::Unknown => 0x00,
            BluetoothCommand::ResetCalibrationData => 0x01,
            BluetoothCommand::Calibrate => 0x02,
        }
    }

    /// Executable form of [`BluetoothCommand::tag`].
    pub fn to_u8(self) -> (r: u8)
        ensures
            r == self.tag(),
    {
        match self {
            BluetoothCommand::Unknown => 0x00,
            BluetoothCommand::ResetCalibrationData => 0x01,
            BluetoothCommand::Calibrate => 0x02,
        }
    }

    /// Decode a command byte; anything unassigned is `Unknown`.
    pub fn from_u8(v: u8) -> (r: BluetoothCommand)
        ensures
            v == 0x01 ==> r == BluetoothCommand::ResetCalibrationData,
            v == 0x02 ==> r == BluetoothCommand::Calibrate,
            (v != 0x01 && v != 0x02) ==> r == BluetoothCommand::Unknown,
    {
        match v {
            0x01 => BluetoothCommand::ResetCalibrationData,
            0x02 => BluetoothCommand::Calibrate,
            _ => BluetoothCommand::Unknown,
        }
    }
}

/// The signed 32-bit value encoded little-endian by four bytes.
pub open spec fn le_i32(b0: u8, b1: u8, b2: u8, b3: u8) -> int {
    let unsigned = b0 + b1 * 0x100 + b2 * 0x10000 + b3 * 0x1000000;
    if unsigned >= 0x8000_0000 {
        unsigned - 0x1_0000_0000
    } else {
        unsigned
    }
}

/// Decode the user declination from the first four bytes of a write to the
/// declination characteristic, little-endian signed.
pub fn decode_declination(data: &[u8]) -> (r: i32)
    requires
        data@.len() >= 4,
    ensures
        r == le_i32(data@[0], data@[1], data@[2], data@[3]),
{
    let b0 = data[0];
    let b1 = data[1];
    let b2 = data[2];
    let b3 = data[3];
    let unsigned: u32 = (b0 as u32) | ((b1 as u32) << 8) | ((b2 as u32) << 16) | ((b3
        as u32) << 24);
    assert({
        let u = (b0 as u32) | ((b1 as u32) << 8) | ((b2 as u32) << 16) | ((b3 as u32) << 24);
        (u as i32) as int == if b0 + b1 * 0x100 + b2 * 0x10000 + b3 * 0x1000000 >= 0x8000_0000 {
            b0 + b1 * 0x100 + b2 * 0x10000 + b3 * 0x1000000 - 0x1_0000_0000
        } else {
            b0 + b1 * 0x100 + b2 * 0x10000 + b3 * 0x1000000
        }
    }) by (bit_vector);
    #[verifier::truncate]
    let signed = unsigned as i32;
    signed
}

/// Encode the user declination as the four little-endian bytes the link
/// notifies its peer with; decoding them gives the value back.
pub fn encode_declination(value: i32) -> (r: Vec<u8>)
    ensures
        r@.len() == 4,
        le_i32(r@[0], r@[1], r@[2], r@[3]) == value,
{
    #[verifier::truncate]
    let unsigned = value as u32;
    let b0 = (unsigned & 0xFF) as u8;
    let b1 = ((unsigned >> 8) & 0xFF) as u8;
    let b2 = ((unsigned >> 16) & 0xFF) as u8;
    let b3 = ((unsigned >> 24) & 0xFF) as u8;
    assert({
        let u = value as u32;
        let c0 = (u & 0xFF) as u8;
        let c1 = ((u >> 8) & 0xFF) as u8;
        let c2 = ((u >> 16) & 0xFF) as u8;
        let c3 = ((u >> 24) & 0xFF) as u8;
        (if c0 + c1 * 0x100 + c2 * 0x10000 + c3 * 0x1000000 >= 0x8000_0000 {
            c0 + c1 * 0x100 + c2 * 0x10000 + c3 * 0x1000000 - 0x1_0000_0000
        } else {
            c0 + c1 * 0x100 + c2 * 0x10000 + c3 * 0x1000000
        }) == value as int
    }) by (bit_vector);
    let mut out: Vec<u8> = Vec::new();
    out.push(b0);
    out.push(b1);
    out.push(b2);
    out.push(b3);
    out
}

} // verus!
