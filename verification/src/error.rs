//! Error taxonomy of the library.

use vstd::prelude::*;

verus! {

/// Everything that can go wrong in the compass core.
///
/// - `Bus`: a transaction-level failure — the status byte of a bus response
///   carried the error bit; the raw status byte travels with the error.
/// - `Protocol`: a mode-start command was answered without the expected
///   mode-acknowledgement bit, even though the error bit was clear.
/// - `InvalidArgument`: a per-axis operation was asked to act on the `ALL`
///   axis mask, or a value was outside its documented range.
/// - `Lifecycle`: bring-up failed (the sampling worker could not be started).
#[derive(Debug, Clone, Copy, PartialEq, Eq, Structural)]
pub enum MagError {
    Bus { status: u8 },
    Protocol { status: u8 },
    InvalidArgument,
    Lifecycle,
}

impl MagError {
    /// Short description of the error for logging by the surrounding runtime.
    pub fn describe(&self) -> &'static str {
        match self {
            MagError::Bus { .. } => "bus transaction failed: status error bit set",
            MagError::Protocol { .. } => "mode start not acknowledged in status byte",
            MagError::InvalidArgument => "invalid argument for this operation",
            MagError::Lifecycle => "device bring-up failed",
        }
    }
}

} // verus!
