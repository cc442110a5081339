//! The app image descriptor: the record that says where one application image is stored
//! and how it is to be loaded.

use crate::checksum::{checksum, cksum};
use crate::error::ParseError;
use crate::memory::Memory;
use crate::version::DESCRIPTOR_VERSION;
use crate::wire::{
    bytes_to_words, encode_words, lemma_encode_decoded, lemma_word_at_encoded, read_word, word_at,
    words_to_bytes,
};
use vstd::prelude::*;

verus! {

/// App image flags: no flag set.
pub const APP_IMAGE_FLAG_NONE: u32 = 0x0000_0000;

/// App image flag: copy the image from `stored_address` to `execution_address` before
/// running it.
pub const APP_IMAGE_FLAG_COPY_TO_EXECUTION_ADDRESS: u32 = 0x0000_0001;

/// App image flag: do not check the checksum of the image contents. The descriptor's own
/// checksum is checked regardless.
pub const APP_IMAGE_FLAG_SKIP_IMAGE_CRC_CHECK: u32 = 0x0000_0002;

/// Size in bytes of a serialized app image descriptor.
pub const APP_IMAGE_DESCRIPTOR_SIZE: usize = 44;

/// The descriptor of one application image.
///
/// On the wire the fields follow each other in the order declared here, without padding,
/// each as a little-endian 32-bit word. The last word is the checksum of the words before
/// it.
#[derive(Copy, Clone, Debug, PartialEq, Eq, Structural)]
pub struct AppImageDescriptor {
    /// Version of the descriptor format, packed as `0xMM_mmmm_pp`.
    pub descriptor_version: u32,
    /// Index of the slot that the descriptor is meant for. It is not compared with the
    /// position that the descriptor is read from.
    pub app_slot_number: u32,
    /// Version of the application.
    pub app_version: u32,
    /// Security version of the application, for protection against roll-back.
    pub security_version: u32,
    /// The `APP_IMAGE_FLAG_*` bits that apply to the image.
    pub flags: u32,
    /// Address at which the image is stored.
    pub stored_address: u32,
    /// Size in bytes of the stored image.
    pub image_size_bytes: u32,
    /// Address at which the checksum of the image contents is stored.
    pub stored_crc_address: u32,
    /// Number of bytes to copy from `stored_address` to `execution_address` before the
    /// image is run.
    pub execution_copy_size_bytes: u32,
    /// Address at which execution of the image begins.
    pub execution_address: u32,
    /// Checksum of the fields above.
    pub descriptor_crc: u32,
}

impl AppImageDescriptor {
    /// The words that the checksum protects, in wire order.
    pub open spec fn checksummed_words(self) -> Seq<u32> {
        seq![
            self.descriptor_version,
            self.app_slot_number,
            self.app_version,
            self.security_version,
            self.flags,
            self.stored_address,
            self.image_size_bytes,
            self.stored_crc_address,
            self.execution_copy_size_bytes,
            self.execution_address,
        ]
    }

    /// All words of the record, in wire order.
    pub open spec fn words(self) -> Seq<u32> {
        self.checksummed_words().push(self.descriptor_crc)
    }

    /// The 44 bytes that represent the descriptor on the wire.
    pub open spec fn serialized(self) -> Seq<u8> {
        words_to_bytes(self.words())
    }

    /// The descriptor that the first 44 bytes of `bytes` represent, valid or not.
    pub open spec fn deserialized(bytes: Seq<u8>) -> Self {
        AppImageDescriptor {
            descriptor_version: word_at(bytes, 0),
            app_slot_number: word_at(bytes, 4),
            app_version: word_at(bytes, 8),
            security_version: word_at(bytes, 12),
            flags: word_at(bytes, 16),
            stored_address: word_at(bytes, 20),
            image_size_bytes: word_at(bytes, 24),
            stored_crc_address: word_at(bytes, 28),
            execution_copy_size_bytes: word_at(bytes, 32),
            execution_address: word_at(bytes, 36),
            descriptor_crc: word_at(bytes, 40),
        }
    }

    /// The checksum that the descriptor's contents call for.
    pub open spec fn expected_crc(self) -> u32 {
        cksum(words_to_bytes(self.checksummed_words()))
    }

    /// Whether the stored checksum is the one that the contents call for.
    pub open spec fn crc_matches(self) -> bool {
        self.descriptor_crc == self.expected_crc()
    }

    /// The verdict on a descriptor read from `address` whose contents have the checksum
    /// `computed_crc`: the descriptor itself if it stores that checksum, else the mismatch.
    pub open spec fn verdict(self, address: usize, computed_crc: u32) -> Result<Self, ParseError> {
        if self.descriptor_crc != computed_crc {
            Err(
                ParseError::InvalidAppCrc {
                    address,
                    found: self.descriptor_crc,
                    expected: computed_crc,
                },
            )
        } else {
            Ok(self)
        }
    }

    /// The result of parsing the first 44 bytes of `bytes`, read from `address`, as a
    /// descriptor.
    pub open spec fn parsed(bytes: Seq<u8>, address: usize) -> Result<Self, ParseError> {
        let descriptor = Self::deserialized(bytes);
        descriptor.verdict(address, descriptor.expected_crc())
    }

    /// The result of parsing the descriptor stored at `address` in `memory`.
    pub open spec fn at(memory: Memory, address: usize) -> Result<Self, ParseError> {
        Self::parsed(memory.bytes_at(address as int, APP_IMAGE_DESCRIPTOR_SIZE as int), address)
    }

    /// Address of the descriptor of slot `app_slot` in the array that starts at
    /// `app_descriptors_address_start`.
    pub open spec fn slot_address(app_descriptors_address_start: int, app_slot: int) -> int {
        app_descriptors_address_start + app_slot * APP_IMAGE_DESCRIPTOR_SIZE
    }

    /// The result of parsing the descriptor of slot `app_slot` in the array that starts at
    /// `app_descriptors_address_start`.
    pub open spec fn at_slot(
        memory: Memory,
        app_descriptors_address_start: usize,
        app_slot: u32,
    ) -> Result<Self, ParseError> {
        Self::at(
            memory,
            Self::slot_address(app_descriptors_address_start as int, app_slot as int) as usize,
        )
    }

    /// The descriptor that [`Self::new_execute_in_place_image`] makes.
    pub open spec fn built_execute_in_place(
        slot: u32,
        app_version: u32,
        security_version: u32,
        flags: u32,
        stored_address: u32,
        image_size_bytes: u32,
        stored_crc_address: u32,
    ) -> Self {
        let unsigned = AppImageDescriptor {
            descriptor_version: DESCRIPTOR_VERSION,
            app_slot_number: slot,
            app_version,
            security_version,
            flags,
            stored_address,
            image_size_bytes,
            stored_crc_address,
            execution_copy_size_bytes: 0,
            execution_address: stored_address,
            descriptor_crc: 0,
        };
        AppImageDescriptor { descriptor_crc: unsigned.expected_crc(), ..unsigned }
    }

    /// The descriptor that [`Self::new_ram_image`] makes.
    pub open spec fn built_ram(
        slot: u32,
        app_version: u32,
        security_version: u32,
        flags: u32,
        flash_address: u32,
        image_size_bytes: u32,
        ram_address: u32,
        stored_crc_address: u32,
    ) -> Self {
        let unsigned = AppImageDescriptor {
            descriptor_version: DESCRIPTOR_VERSION,
            app_slot_number: slot,
            app_version,
            security_version,
            flags: flags | APP_IMAGE_FLAG_COPY_TO_EXECUTION_ADDRESS,
            stored_address: flash_address,
            image_size_bytes,
            stored_crc_address,
            execution_copy_size_bytes: image_size_bytes,
            execution_address: ram_address,
            descriptor_crc: 0,
        };
        AppImageDescriptor { descriptor_crc: unsigned.expected_crc(), ..unsigned }
    }

    /// Reads the descriptor of slot `app_slot` from the array that starts at
    /// `app_descriptors_address_start`. The slot index is not held against a slot count.
    pub fn from_region(memory: Memory, app_descriptors_address_start: usize, app_slot: u32) -> (result:
        Result<Self, ParseError>)
        requires
            memory.contains(
                Self::slot_address(app_descriptors_address_start as int, app_slot as int),
                APP_IMAGE_DESCRIPTOR_SIZE as int,
            ),
        ensures
            result == Self::at_slot(memory, app_descriptors_address_start, app_slot),
    {
        let address: usize = app_descriptors_address_start + (app_slot as usize)
            * APP_IMAGE_DESCRIPTOR_SIZE;
        Self::from_address(memory, address)
    }

    /// Makes the descriptor of an image that runs from where it is stored: nothing is
    /// copied and execution begins at `stored_address`. The checksum is filled in.
    pub fn new_execute_in_place_image(
        slot: u32,
        app_version: u32,
        security_version: u32,
        flags: u32,
        stored_address: u32,
        image_size_bytes: u32,
        stored_crc_address: u32,
    ) -> (descriptor: Self)
        ensures
            descriptor == Self::built_execute_in_place(
                slot,
                app_version,
                security_version,
                flags,
                stored_address,
                image_size_bytes,
                stored_crc_address,
            ),
    {
        let mut app_image_descriptor = AppImageDescriptor {
            descriptor_version: DESCRIPTOR_VERSION,
            app_slot_number: slot,
            app_version,
            security_version,
            flags,
            stored_address,
            image_size_bytes,
            stored_crc_address,
            execution_copy_size_bytes: 0,
            execution_address: stored_address,
            descriptor_crc: 0,
        };
        app_image_descriptor.descriptor_crc = app_image_descriptor.compute_crc();
        app_image_descriptor
    }

    /// Makes the descriptor of an image that is stored at `flash_address` and copied whole
    /// to `ram_address` to run there. The copy flag is set whatever `flags` holds. The
    /// checksum is filled in.
    pub fn new_ram_image(
        slot: u32,
        app_version: u32,
        security_version: u32,
        flags: u32,
        flash_address: u32,
        image_size_bytes: u32,
        ram_address: u32,
        stored_crc_address: u32,
    ) -> (descriptor: Self)
        ensures
            descriptor == Self::built_ram(
                slot,
                app_version,
                security_version,
                flags,
                flash_address,
                image_size_bytes,
                ram_address,
                stored_crc_address,
            ),
            descriptor.flags & APP_IMAGE_FLAG_COPY_TO_EXECUTION_ADDRESS != 0,
    {
        assert((flags | 1) & 1 != 0) by (bit_vector);
        let mut app_image_descriptor = AppImageDescriptor {
            descriptor_version: DESCRIPTOR_VERSION,
            app_slot_number: slot,
            app_version,
            security_version,
            flags: flags | APP_IMAGE_FLAG_COPY_TO_EXECUTION_ADDRESS,
            stored_address: flash_address,
            image_size_bytes,
            stored_crc_address,
            execution_copy_size_bytes: image_size_bytes,
            execution_address: ram_address,
            descriptor_crc: 0,
        };
        app_image_descriptor.descriptor_crc = app_image_descriptor.compute_crc();
        app_image_descriptor
    }

    /// Reads the descriptor stored at `address` and checks its checksum.
    pub fn from_address(memory: Memory, address: usize) -> (result: Result<Self, ParseError>)
        requires
            memory.contains(address as int, APP_IMAGE_DESCRIPTOR_SIZE as int),
        ensures
            result == Self::at(memory, address),
    {
        let unvalidated = Self::from_bytes(memory.read(address, APP_IMAGE_DESCRIPTOR_SIZE));
        let computed_crc = unvalidated.compute_crc();
        unvalidated.validated(address, computed_crc)
    }

    /// Interprets the first 44 bytes of `bytes` as a descriptor, without validating it.
    pub fn from_bytes(bytes: &[u8]) -> (descriptor: Self)
        requires
            bytes@.len() >= APP_IMAGE_DESCRIPTOR_SIZE,
        ensures
            descriptor == Self::deserialized(bytes@),
    {
        AppImageDescriptor {
            descriptor_version: read_word(bytes, 0),
            app_slot_number: read_word(bytes, 4),
            app_version: read_word(bytes, 8),
            security_version: read_word(bytes, 12),
            flags: read_word(bytes, 16),
            stored_address: read_word(bytes, 20),
            image_size_bytes: read_word(bytes, 24),
            stored_crc_address: read_word(bytes, 28),
            execution_copy_size_bytes: read_word(bytes, 32),
            execution_address: read_word(bytes, 36),
            descriptor_crc: read_word(bytes, 40),
        }
    }

    /// Validates a descriptor that was read from `address` and whose contents have the
    /// checksum `computed_crc`.
    pub fn validated(self, address: usize, computed_crc: u32) -> (result: Result<
        Self,
        ParseError,
    >)
        ensures
            result == self.verdict(address, computed_crc),
    {
        if self.descriptor_crc != computed_crc {
            Err(
                ParseError::InvalidAppCrc {
                    address,
                    found: self.descriptor_crc,
                    expected: computed_crc,
                },
            )
        } else {
            Ok(self)
        }
    }

    /// The descriptor as it is laid out on the wire.
    pub fn as_bytes(&self) -> (bytes: [u8; 44])
        ensures
            bytes@ == self.serialized(),
    {
        let words: [u32; 11] = [
            self.descriptor_version,
            self.app_slot_number,
            self.app_version,
            self.security_version,
            self.flags,
            self.stored_address,
            self.image_size_bytes,
            self.stored_crc_address,
            self.execution_copy_size_bytes,
            self.execution_address,
            self.descriptor_crc,
        ];
        assert(words@ =~= self.words());
        encode_words(words.as_slice())
    }

    /// The checksum of the descriptor's current contents, the stored checksum left out.
    pub fn compute_crc(&self) -> (crc: u32)
        ensures
            crc == self.expected_crc(),
    {
        let words: [u32; 10] = [
            self.descriptor_version,
            self.app_slot_number,
            self.app_version,
            self.security_version,
            self.flags,
            self.stored_address,
            self.image_size_bytes,
            self.stored_crc_address,
            self.execution_copy_size_bytes,
            self.execution_address,
        ];
        assert(words@ =~= self.checksummed_words());
        let without_crc: [u8; 40] = encode_words(words.as_slice());
        checksum(without_crc.as_slice())
    }

    /// Whether the stored checksum is the checksum of the descriptor's current contents.
    pub fn is_crc_valid(&self) -> (valid: bool)
        ensures
            valid == self.crc_matches(),
    {
        self.descriptor_crc == self.compute_crc()
    }

    /// Reading back the bytes of a descriptor gives the descriptor.
    pub proof fn lemma_deserialize_serialized(self)
        ensures
            self.serialized().len() == APP_IMAGE_DESCRIPTOR_SIZE,
            Self::deserialized(self.serialized()) == self,
    {
        let words = self.words();
        lemma_word_at_encoded(words, 0);
        lemma_word_at_encoded(words, 1);
        lemma_word_at_encoded(words, 2);
        lemma_word_at_encoded(words, 3);
        lemma_word_at_encoded(words, 4);
        lemma_word_at_encoded(words, 5);
        lemma_word_at_encoded(words, 6);
        lemma_word_at_encoded(words, 7);
        lemma_word_at_encoded(words, 8);
        lemma_word_at_encoded(words, 9);
        lemma_word_at_encoded(words, 10);
    }

    /// The bytes of the descriptor that `bytes` represent are the first 44 of `bytes`, and
    /// the checksum that it calls for is the checksum of the first 40.
    pub proof fn lemma_serialize_deserialized(bytes: Seq<u8>)
        requires
            bytes.len() >= APP_IMAGE_DESCRIPTOR_SIZE,
        ensures
            Self::deserialized(bytes).serialized() == bytes.subrange(0, 44),
            Self::deserialized(bytes).expected_crc() == cksum(bytes.subrange(0, 40)),
    {
        let descriptor = Self::deserialized(bytes);
        lemma_encode_decoded(bytes, 11);
        assert(descriptor.words() =~= bytes_to_words(bytes, 11));
        lemma_encode_decoded(bytes, 10);
        assert(descriptor.checksummed_words() =~= bytes_to_words(bytes, 10));
    }

    /// A descriptor whose stored checksum is replaced by the checksum of its contents
    /// parses, from its own bytes, as itself. The descriptors that
    /// [`Self::new_execute_in_place_image`] and [`Self::new_ram_image`] make are of this
    /// kind.
    pub proof fn lemma_signed_descriptor_parses(self, address: usize)
        ensures
            (AppImageDescriptor { descriptor_crc: self.expected_crc(), ..self }).crc_matches(),
            Self::parsed(
                (AppImageDescriptor { descriptor_crc: self.expected_crc(), ..self }).serialized(),
                address,
            ) == Ok::<Self, ParseError>(
                AppImageDescriptor { descriptor_crc: self.expected_crc(), ..self },
            ),
    {
        let signed = AppImageDescriptor { descriptor_crc: self.expected_crc(), ..self };
        assert(signed.checksummed_words() =~= self.checksummed_words());
        signed.lemma_deserialize_serialized();
    }

    /// Changing one byte of a descriptor with a matching checksum is detected, unless the
    /// changed contents happen to have the checksum of the contents before the change: the
    /// stored checksum no longer matches, and parsing reports the mismatch.
    pub proof fn lemma_changed_byte_detected(bytes: Seq<u8>, address: usize, index: int, value: u8)
        requires
            bytes.len() == APP_IMAGE_DESCRIPTOR_SIZE,
            Self::deserialized(bytes).crc_matches(),
            0 <= index < bytes.len(),
            value != bytes[index],
            index < 40 ==> Self::deserialized(bytes.update(index, value)).expected_crc()
                != Self::deserialized(bytes).expected_crc(),
        ensures
            !Self::deserialized(bytes.update(index, value)).crc_matches(),
            Self::parsed(bytes.update(index, value), address) == Err::<Self, ParseError>(
                ParseError::InvalidAppCrc {
                    address,
                    found: Self::deserialized(bytes.update(index, value)).descriptor_crc,
                    expected: Self::deserialized(bytes.update(index, value)).expected_crc(),
                },
            ),
    {
        let intact = Self::deserialized(bytes);
        let changed = Self::deserialized(bytes.update(index, value));
        if index >= 40 {
            assert(changed.checksummed_words() =~= intact.checksummed_words());
            assert(changed.descriptor_crc != intact.descriptor_crc);
        }
    }
}

} // verus!
