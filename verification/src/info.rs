//! Firmware and control-protocol identity, as reported by `GET_INFO` and
//! embedded in the image manifest.
use vstd::prelude::*;

verus! {

/// Control protocol major version.
pub const PROTOCOL_MAJOR: u8 = 1;

/// Control protocol minor version.
pub const PROTOCOL_MINOR: u8 = 0;

/// Longest firmware version string, in bytes.
pub const VERSION_MAX_LENGTH: usize = 63;

/// The firmware version string: printable ASCII, at most
/// [`VERSION_MAX_LENGTH`] bytes.
pub const FIRMWARE_VERSION: &'static str = "0.1.0";

} // verus!
