//! What can be wrong with a descriptor region.

use vstd::prelude::*;

verus! {

/// The first violated rule found while reading a descriptor region.
#[derive(Copy, Clone, Debug, PartialEq, Eq, Structural)]
pub enum ParseError {
    /// The region header does not start with the signature word.
    InvalidSignature,
    /// The checksum stored in the region header is not the checksum of its contents.
    InvalidHeaderCrc {
        /// The checksum stored in the header.
        found: u32,
        /// The checksum of the header's current contents.
        expected: u32,
    },
    /// The checksum stored in an app image descriptor is not the checksum of its contents.
    InvalidAppCrc {
        /// Address the descriptor was read from.
        address: usize,
        /// The checksum stored in the descriptor.
        found: u32,
        /// The checksum of the descriptor's current contents.
        expected: u32,
    },
    /// A slot index is not below the number of app slots.
    InvalidAppSlot,
    /// The region declares no app slots.
    InvalidSlotCount,
}

} // verus!
