//! The validated view of a bootable region: its header and the app image descriptors
//! that the header leads to.

use crate::app_image::{AppImageDescriptor, APP_IMAGE_DESCRIPTOR_SIZE};
use crate::error::ParseError;
use crate::header::{BootableRegionDescriptorHeader, BOOT_REGION_DESCRIPTOR_SIZE};
use crate::memory::Memory;
use vstd::prelude::*;

verus! {

/// A bootable region whose header and app image descriptors have all been validated.
///
/// A value of this type exists only for a region in which the header and every slot
/// parse. It keeps the header and borrows the memory; descriptors are read from the
/// memory again on every query.
pub struct BootableRegionDescriptors<'a> {
    memory: Memory<'a>,
    base_address: usize,
    header: BootableRegionDescriptorHeader,
}

impl<'a> BootableRegionDescriptors<'a> {
    /// The memory that the region was validated in.
    pub closed spec fn memory(self) -> Memory<'a> {
        self.memory
    }

    /// The address that the header was read from.
    pub closed spec fn base_address(self) -> usize {
        self.base_address
    }

    /// The validated header.
    pub closed spec fn header(self) -> BootableRegionDescriptorHeader {
        self.header
    }

    /// Whether the descriptor array that `header` describes lies within `memory`.
    pub open spec fn slots_readable(memory: Memory, header: BootableRegionDescriptorHeader) -> bool {
        memory.contains(
            header.app_descriptor_base_address as int,
            header.num_app_slots * APP_IMAGE_DESCRIPTOR_SIZE,
        )
    }

    /// Whether `memory` holds all that loading the region at `address` reads: the header
    /// and, if the header parses, the descriptor array that it describes.
    pub open spec fn region_readable(memory: Memory, address: usize) -> bool {
        &&& memory.contains(address as int, BOOT_REGION_DESCRIPTOR_SIZE as int)
        &&& BootableRegionDescriptorHeader::at(memory, address as int) matches Ok(header)
            ==> Self::slots_readable(memory, header)
    }

    /// Whether each of the `count` descriptors of the array at `start` parses.
    pub open spec fn slots_valid(memory: Memory, start: usize, count: u32) -> bool {
        forall|slot: u32|
            slot < count ==> (#[trigger] AppImageDescriptor::at_slot(memory, start, slot)) is Ok
    }

    /// Whether `slot` is the first of the `count` descriptors of the array at `start` that
    /// does not parse.
    pub open spec fn first_invalid_slot(memory: Memory, start: usize, count: u32, slot: u32) -> bool {
        &&& slot < count
        &&& AppImageDescriptor::at_slot(memory, start, slot) is Err
        &&& forall|earlier: u32|
            earlier < slot ==> (#[trigger] AppImageDescriptor::at_slot(memory, start, earlier))
                is Ok
    }

    /// What loading the region at `address` comes to: the error of the header if it does
    /// not parse; else the error of the first slot that does not parse; else the header.
    pub open spec fn outcome(memory: Memory, address: usize) -> Result<
        BootableRegionDescriptorHeader,
        ParseError,
    > {
        match BootableRegionDescriptorHeader::at(memory, address as int) {
            Err(error) => Err(error),
            Ok(header) => {
                let start = header.app_descriptor_base_address as usize;
                if Self::slots_valid(memory, start, header.num_app_slots) {
                    Ok(header)
                } else {
                    let slot = choose|slot: u32|
                        Self::first_invalid_slot(memory, start, header.num_app_slots, slot);
                    Err(AppImageDescriptor::at_slot(memory, start, slot)->Err_0)
                }
            },
        }
    }

    /// Whether `result` is what loading the region at `address` in `memory` gives.
    pub open spec fn loaded(memory: Memory, address: usize, result: Result<Self, ParseError>) -> bool {
        match result {
            Ok(descriptors) => {
                &&& Self::outcome(memory, address) == Ok::<
                    BootableRegionDescriptorHeader,
                    ParseError,
                >(descriptors.header())
                &&& descriptors.memory() == memory
                &&& descriptors.base_address() == address
            },
            Err(error) => Self::outcome(memory, address) == Err::<
                BootableRegionDescriptorHeader,
                ParseError,
            >(error),
        }
    }

    #[verifier::type_invariant]
    spec fn validated(self) -> bool {
        &&& BootableRegionDescriptorHeader::at(self.memory, self.base_address as int) == Ok::<
            BootableRegionDescriptorHeader,
            ParseError,
        >(self.header)
        &&& Self::slots_readable(self.memory, self.header)
        &&& Self::slots_valid(
            self.memory,
            self.header.app_descriptor_base_address as usize,
            self.header.num_app_slots,
        )
    }

    /// Loads the region whose header is stored at `address`: validates the header, then
    /// every slot of the descriptor array in turn. The first error found is returned, and
    /// no region is returned unless all of it is valid.
    pub fn from_address(memory: Memory<'a>, address: usize) -> (result: Result<Self, ParseError>)
        requires
            Self::region_readable(memory, address),
        ensures
            Self::loaded(memory, address, result),
    {
        let header = match BootableRegionDescriptorHeader::from_address(memory, address) {
            Ok(header) => header,
            Err(error) => {
                return Err(error);
            },
        };
        let start: usize = header.app_descriptor_base_address as usize;
        let mut slot: u32 = 0;
        while slot < header.num_app_slots
            invariant
                slot <= header.num_app_slots,
                start == header.app_descriptor_base_address,
                BootableRegionDescriptorHeader::at(memory, address as int) == Ok::<
                    BootableRegionDescriptorHeader,
                    ParseError,
                >(header),
                Self::slots_readable(memory, header),
                forall|earlier: u32|
                    earlier < slot ==> (#[trigger] AppImageDescriptor::at_slot(
                        memory,
                        start,
                        earlier,
                    )) is Ok,
            decreases header.num_app_slots - slot,
        {
            match AppImageDescriptor::from_region(memory, start, slot) {
                Ok(_) => {},
                Err(error) => {
                    proof {
                        Self::lemma_first_invalid_slot_decides(memory, address, slot);
                    }
                    return Err(error);
                },
            }
            slot += 1;
        }
        Ok(BootableRegionDescriptors { memory, base_address: address, header })
    }

    /// Loads the region whose header is stored at `address` if `memory` holds all of it.
    /// Gives `None` where the header, or the descriptor array that a header that parses
    /// describes, does not lie within `memory`.
    pub fn try_from_address(memory: Memory<'a>, address: usize) -> (result: Option<
        Result<Self, ParseError>,
    >)
        ensures
            result is Some <==> Self::region_readable(memory, address),
            result matches Some(loaded) ==> Self::loaded(memory, address, loaded),
    {
        if !memory.covers(address, BOOT_REGION_DESCRIPTOR_SIZE) {
            return None;
        }
        let readable = match BootableRegionDescriptorHeader::from_address(memory, address) {
            Err(_) => true,
            Ok(header) => {
                match (header.num_app_slots as usize).checked_mul(APP_IMAGE_DESCRIPTOR_SIZE) {
                    Some(size) => memory.covers(header.app_descriptor_base_address as usize, size),
                    None => false,
                }
            },
        };
        if readable {
            Some(Self::from_address(memory, address))
        } else {
            None
        }
    }

    /// The descriptor of the active slot.
    pub fn get_active_slot(&self) -> (descriptor: AppImageDescriptor)
        ensures
            self.header().active_app_slot < self.header().num_app_slots,
            AppImageDescriptor::at_slot(
                self.memory(),
                self.header().app_descriptor_base_address as usize,
                self.header().active_app_slot,
            ) == Ok::<AppImageDescriptor, ParseError>(descriptor),
    {
        proof {
            use_type_invariant(self);
        }
        AppImageDescriptor::from_region(
            self.memory,
            self.header.app_descriptor_base_address as usize,
            self.header.active_app_slot,
        ).unwrap()
    }

    /// The descriptor of slot `app_slot`, or `InvalidAppSlot` where the region has no such
    /// slot.
    pub fn get_app_at_slot(&self, app_slot: u32) -> (result: Result<AppImageDescriptor, ParseError>)
        ensures
            app_slot >= self.header().num_app_slots ==> result == Err::<
                AppImageDescriptor,
                ParseError,
            >(ParseError::InvalidAppSlot),
            app_slot < self.header().num_app_slots ==> result is Ok && result
                == AppImageDescriptor::at_slot(
                self.memory(),
                self.header().app_descriptor_base_address as usize,
                app_slot,
            ),
    {
        proof {
            use_type_invariant(self);
        }
        if app_slot >= self.header.num_app_slots {
            return Err(ParseError::InvalidAppSlot);
        }
        AppImageDescriptor::from_region(
            self.memory,
            self.header.app_descriptor_base_address as usize,
            app_slot,
        )
    }

    /// Where the header parses and `slot` is the first slot that does not, loading the
    /// region fails with the error of that slot, however many valid slots come before it.
    pub proof fn lemma_first_invalid_slot_decides(memory: Memory, address: usize, slot: u32)
        requires
            BootableRegionDescriptorHeader::at(memory, address as int) is Ok,
            Self::first_invalid_slot(
                memory,
                BootableRegionDescriptorHeader::at(
                    memory,
                    address as int,
                )->Ok_0.app_descriptor_base_address as usize,
                BootableRegionDescriptorHeader::at(memory, address as int)->Ok_0.num_app_slots,
                slot,
            ),
        ensures
            Self::outcome(memory, address) == Err::<BootableRegionDescriptorHeader, ParseError>(
                AppImageDescriptor::at_slot(
                    memory,
                    BootableRegionDescriptorHeader::at(
                        memory,
                        address as int,
                    )->Ok_0.app_descriptor_base_address as usize,
                    slot,
                )->Err_0,
            ),
    {
        let header = BootableRegionDescriptorHeader::at(memory, address as int)->Ok_0;
        let start = header.app_descriptor_base_address as usize;
        let chosen = choose|chosen: u32|
            Self::first_invalid_slot(memory, start, header.num_app_slots, chosen);
        assert(Self::first_invalid_slot(memory, start, header.num_app_slots, chosen));
        assert(chosen == slot);
    }

    /// Where the header parses and so does every slot that it describes, loading the
    /// region succeeds with that header.
    pub proof fn lemma_valid_region_loads(memory: Memory, address: usize)
        requires
            BootableRegionDescriptorHeader::at(memory, address as int) is Ok,
            Self::slots_valid(
                memory,
                BootableRegionDescriptorHeader::at(
                    memory,
                    address as int,
                )->Ok_0.app_descriptor_base_address as usize,
                BootableRegionDescriptorHeader::at(memory, address as int)->Ok_0.num_app_slots,
            ),
        ensures
            Self::outcome(memory, address) == BootableRegionDescriptorHeader::at(
                memory,
                address as int,
            ),
    {
    }
}

} // verus!
