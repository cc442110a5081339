//! The version of the descriptor format, packed as `0xMM_mmmm_pp`.

use vstd::prelude::*;

verus! {

/// Version of the descriptor format that this library reads and writes: major in the top
/// byte, minor in the middle two bytes, patch in the low byte.
pub const DESCRIPTOR_VERSION: u32 = 0x00_0001_00;

/// The major field of [`DESCRIPTOR_VERSION`].
pub const DESCRIPTOR_VERSION_MAJOR: u32 = (DESCRIPTOR_VERSION >> 24) & 0xFF;

/// The minor field of [`DESCRIPTOR_VERSION`].
pub const DESCRIPTOR_VERSION_MINOR: u32 = (DESCRIPTOR_VERSION >> 8) & 0xFFFF;

/// The patch field of [`DESCRIPTOR_VERSION`].
pub const DESCRIPTOR_VERSION_PATCH: u32 = DESCRIPTOR_VERSION & 0xFF;

} // verus!
