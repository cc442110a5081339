//! The storage that descriptors are read from.

use vstd::prelude::*;
use vstd::slice::slice_subrange;

verus! {

/// A readable window of the device's address space: `bytes[i]` is the byte stored at
/// address `origin + i`.
///
/// The window borrows the storage, so what has been validated in it stays valid for as
/// long as the window is in use.
#[derive(Clone, Copy, Debug)]
pub struct Memory<'a> {
    /// Address of the first byte of the window.
    pub origin: usize,
    /// The bytes of the window.
    pub bytes: &'a [u8],
}

impl<'a> Memory<'a> {
    /// Whether the `size` bytes that start at `address` lie within the window and end at
    /// an address that a `usize` can hold.
    pub open spec fn contains(self, address: int, size: int) -> bool {
        &&& 0 <= size
        &&& self.origin <= address
        &&& address + size <= self.origin + self.bytes@.len()
        &&& address + size <= usize::MAX
    }

    /// The `size` bytes that start at `address`.
    pub open spec fn bytes_at(self, address: int, size: int) -> Seq<u8>
        recommends
            self.contains(address, size),
    {
        self.bytes@.subrange(address - self.origin, address - self.origin + size)
    }

    /// Tells whether the `size` bytes that start at `address` can be read from the window.
    pub fn covers(&self, address: usize, size: usize) -> (covered: bool)
        ensures
            covered == self.contains(address as int, size as int),
    {
        if address < self.origin || size > usize::MAX - address {
            return false;
        }
        let offset: usize = address - self.origin;
        offset <= self.bytes.len() && size <= self.bytes.len() - offset
    }

    /// Borrows the `size` bytes that start at `address`.
    pub fn read(&self, address: usize, size: usize) -> (bytes: &'a [u8])
        requires
            self.contains(address as int, size as int),
        ensures
            bytes@ == self.bytes_at(address as int, size as int),
    {
        let offset: usize = address - self.origin;
        slice_subrange(self.bytes, offset, offset + size)
    }
}

} // verus!
