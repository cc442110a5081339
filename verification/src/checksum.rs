//! The 32-bit checksum that protects every descriptor record.

use vstd::prelude::*;

verus! {

/// The CRC-32/CKSUM checksum of `bytes`: polynomial `0x04C11DB7`, initial value zero,
/// neither input nor output reflected, final XOR `0xFFFFFFFF`.
///
/// The value is computed by the `crc` crate; this library treats it as a fixed function
/// of the bytes and proves nothing that depends on the polynomial arithmetic.
pub uninterp spec fn cksum(bytes: Seq<u8>) -> u32;

/// Computes the checksum of `bytes`.
///
/// Trusted: calls `crc::Crc::<u32>::new(&crc::CRC_32_CKSUM).checksum(bytes)`. The
/// contract claims only that the result is the function [`cksum`] of the bytes given,
/// that is, that the call is deterministic and reads nothing but `bytes`.
#[verifier::external_body]
pub(crate) fn checksum(bytes: &[u8]) -> (crc: u32)
    ensures
        crc == cksum(bytes@),
{
    crc::Crc::<u32>::new(&crc::CRC_32_CKSUM).checksum(bytes)
}

} // verus!
