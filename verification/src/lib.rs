//! Descriptors that tell a two-stage boot loader where the application images of a
//! bootable region are stored, which of them is active, and how each is to be loaded.
//!
//! A bootable region is described by one [`BootableRegionDescriptorHeader`] and an array
//! of [`AppImageDescriptor`]s, one per application slot. Both records have a fixed,
//! padding-free layout of little-endian 32-bit words and end in a CRC-32/CKSUM checksum
//! of the words before it. [`BootableRegionDescriptors`] validates the header and every
//! slot of a region found in [`Memory`] and then answers slot queries.

pub mod app_image;
pub mod checksum;
pub mod error;
pub mod header;
pub mod memory;
pub mod region;
pub mod version;
pub mod wire;

pub use app_image::{
    AppImageDescriptor, APP_IMAGE_DESCRIPTOR_SIZE, APP_IMAGE_FLAG_COPY_TO_EXECUTION_ADDRESS,
    APP_IMAGE_FLAG_NONE, APP_IMAGE_FLAG_SKIP_IMAGE_CRC_CHECK,
};
pub use checksum::cksum;
pub use error::ParseError;
pub use header::{
    BootableRegionDescriptorHeader, BOOT_REGION_DESCRIPTOR_SIGNATURE, BOOT_REGION_DESCRIPTOR_SIZE,
};
pub use memory::Memory;
pub use region::BootableRegionDescriptors;
pub use version::{
    DESCRIPTOR_VERSION, DESCRIPTOR_VERSION_MAJOR, DESCRIPTOR_VERSION_MINOR,
    DESCRIPTOR_VERSION_PATCH,
};
