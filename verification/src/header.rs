//! The region header: the record that says where the app image descriptors of a
//! bootable region are and which of them is active.

use crate::app_image::APP_IMAGE_DESCRIPTOR_SIZE;
use crate::checksum::{checksum, cksum};
use crate::error::ParseError;
use crate::memory::Memory;
use crate::version::DESCRIPTOR_VERSION;
use crate::wire::{
    bytes_to_words, encode_words, lemma_bytes_of_word, lemma_encode_decoded,
    lemma_word_at_encoded, read_word, word_at, words_to_bytes,
};
use vstd::prelude::*;

verus! {

/// The word that every region header starts with.
pub const BOOT_REGION_DESCRIPTOR_SIGNATURE: u32 = 0x2222_2222;

/// Size in bytes of a serialized region header.
pub const BOOT_REGION_DESCRIPTOR_SIZE: usize = 32;

/// The header of a bootable region.
///
/// On the wire the fields follow each other in the order declared here, without padding,
/// each as a little-endian 32-bit word. The last word is the checksum of the words before
/// it.
#[derive(Copy, Clone, Debug, PartialEq, Eq, Structural)]
pub struct BootableRegionDescriptorHeader {
    /// [`BOOT_REGION_DESCRIPTOR_SIGNATURE`].
    pub signature: u32,
    /// Version of the descriptor format, packed as `0xMM_mmmm_pp`.
    pub descriptor_version: u32,
    /// [`BOOT_REGION_DESCRIPTOR_SIZE`].
    pub descriptor_header_size_bytes: u32,
    /// Size in bytes of one app image descriptor.
    pub app_descriptor_size_bytes: u32,
    /// Address of the first app image descriptor; the others follow it without gaps.
    pub app_descriptor_base_address: u32,
    /// Number of app image descriptors in the region.
    pub num_app_slots: u32,
    /// Index of the app image descriptor that is to be booted.
    pub active_app_slot: u32,
    /// Checksum of the fields above.
    pub header_crc: u32,
}

impl BootableRegionDescriptorHeader {
    /// The words that the checksum protects, in wire order.
    pub open spec fn checksummed_words(self) -> Seq<u32> {
        seq![
            self.signature,
            self.descriptor_version,
            self.descriptor_header_size_bytes,
            self.app_descriptor_size_bytes,
            self.app_descriptor_base_address,
            self.num_app_slots,
            self.active_app_slot,
        ]
    }

    /// All words of the record, in wire order.
    pub open spec fn words(self) -> Seq<u32> {
        self.checksummed_words().push(self.header_crc)
    }

    /// The 32 bytes that represent the header on the wire.
    pub open spec fn serialized(self) -> Seq<u8> {
        words_to_bytes(self.words())
    }

    /// The header that the first 32 bytes of `bytes` represent, valid or not.
    pub open spec fn deserialized(bytes: Seq<u8>) -> Self {
        BootableRegionDescriptorHeader {
            signature: word_at(bytes, 0),
            descriptor_version: word_at(bytes, 4),
            descriptor_header_size_bytes: word_at(bytes, 8),
            app_descriptor_size_bytes: word_at(bytes, 12),
            app_descriptor_base_address: word_at(bytes, 16),
            num_app_slots: word_at(bytes, 20),
            active_app_slot: word_at(bytes, 24),
            header_crc: word_at(bytes, 28),
        }
    }

    /// The checksum that the header's contents call for.
    pub open spec fn expected_crc(self) -> u32 {
        cksum(words_to_bytes(self.checksummed_words()))
    }

    /// Whether the stored checksum is the one that the contents call for.
    pub open spec fn crc_matches(self) -> bool {
        self.header_crc == self.expected_crc()
    }

    /// The verdict on a header whose contents have the checksum `computed_crc`: the first
    /// rule that the header breaks, in the order signature, checksum, slot count, active
    /// slot; the header itself if it breaks none.
    pub open spec fn verdict(self, computed_crc: u32) -> Result<Self, ParseError> {
        if self.signature != BOOT_REGION_DESCRIPTOR_SIGNATURE {
            Err(ParseError::InvalidSignature)
        } else if self.header_crc != computed_crc {
            Err(ParseError::InvalidHeaderCrc { found: self.header_crc, expected: computed_crc })
        } else if self.num_app_slots < 1 {
            Err(ParseError::InvalidSlotCount)
        } else if self.active_app_slot >= self.num_app_slots {
            Err(ParseError::InvalidAppSlot)
        } else {
            Ok(self)
        }
    }

    /// The result of parsing the first 32 bytes of `bytes` as a header.
    pub open spec fn parsed(bytes: Seq<u8>) -> Result<Self, ParseError> {
        let header = Self::deserialized(bytes);
        header.verdict(header.expected_crc())
    }

    /// The result of parsing the header stored at `address` in `memory`.
    pub open spec fn at(memory: Memory, address: int) -> Result<Self, ParseError> {
        Self::parsed(memory.bytes_at(address, BOOT_REGION_DESCRIPTOR_SIZE as int))
    }

    /// The header that [`Self::new`] makes for the given slot count, active slot and
    /// address of the descriptor array.
    pub open spec fn built(
        app_slot_count: u32,
        active_app_slot: u32,
        app_descriptor_address: u32,
    ) -> Self {
        let unsigned = BootableRegionDescriptorHeader {
            signature: BOOT_REGION_DESCRIPTOR_SIGNATURE,
            descriptor_version: DESCRIPTOR_VERSION,
            descriptor_header_size_bytes: BOOT_REGION_DESCRIPTOR_SIZE as u32,
            app_descriptor_size_bytes: APP_IMAGE_DESCRIPTOR_SIZE as u32,
            app_descriptor_base_address: app_descriptor_address,
            num_app_slots: app_slot_count,
            active_app_slot,
            header_crc: 0,
        };
        BootableRegionDescriptorHeader { header_crc: unsigned.expected_crc(), ..unsigned }
    }

    /// Reads the header stored at `address` and validates it. The first rule that the
    /// header breaks decides the error.
    pub fn from_address(memory: Memory, address: usize) -> (result: Result<Self, ParseError>)
        requires
            memory.contains(address as int, BOOT_REGION_DESCRIPTOR_SIZE as int),
        ensures
            result == Self::at(memory, address as int),
    {
        let unvalidated = Self::from_bytes(memory.read(address, BOOT_REGION_DESCRIPTOR_SIZE));
        let computed_crc = unvalidated.compute_crc();
        unvalidated.validated(computed_crc)
    }

    /// Interprets the first 32 bytes of `bytes` as a header, without validating it.
    pub fn from_bytes(bytes: &[u8]) -> (header: Self)
        requires
            bytes@.len() >= BOOT_REGION_DESCRIPTOR_SIZE,
        ensures
            header == Self::deserialized(bytes@),
    {
        BootableRegionDescriptorHeader {
            signature: read_word(bytes, 0),
            descriptor_version: read_word(bytes, 4),
            descriptor_header_size_bytes: read_word(bytes, 8),
            app_descriptor_size_bytes: read_word(bytes, 12),
            app_descriptor_base_address: read_word(bytes, 16),
            num_app_slots: read_word(bytes, 20),
            active_app_slot: read_word(bytes, 24),
            header_crc: read_word(bytes, 28),
        }
    }

    /// Validates a header whose contents have the checksum `computed_crc`.
    pub fn validated(self, computed_crc: u32) -> (result: Result<Self, ParseError>)
        ensures
            result == self.verdict(computed_crc),
    {
        if self.signature != BOOT_REGION_DESCRIPTOR_SIGNATURE {
            Err(ParseError::InvalidSignature)
        } else if self.header_crc != computed_crc {
            Err(ParseError::InvalidHeaderCrc { found: self.header_crc, expected: computed_crc })
        } else if self.num_app_slots < 1 {
            Err(ParseError::InvalidSlotCount)
        } else if self.active_app_slot >= self.num_app_slots {
            Err(ParseError::InvalidAppSlot)
        } else {
            Ok(self)
        }
    }

    /// Makes the header of a region with `app_slot_count` slots whose descriptors start at
    /// `app_descriptor_address`, with the checksum filled in.
    pub fn new(app_slot_count: u32, active_app_slot: u32, app_descriptor_address: u32) -> (header:
        Self)
        ensures
            header == Self::built(app_slot_count, active_app_slot, app_descriptor_address),
    {
        let mut this = BootableRegionDescriptorHeader {
            signature: BOOT_REGION_DESCRIPTOR_SIGNATURE,
            descriptor_version: DESCRIPTOR_VERSION,
            descriptor_header_size_bytes: BOOT_REGION_DESCRIPTOR_SIZE as u32,
            app_descriptor_size_bytes: APP_IMAGE_DESCRIPTOR_SIZE as u32,
            app_descriptor_base_address: app_descriptor_address,
            num_app_slots: app_slot_count,
            active_app_slot,
            header_crc: 0,
        };
        this.header_crc = this.compute_crc();
        this
    }

    /// The header as it is laid out on the wire.
    pub fn as_bytes(&self) -> (bytes: [u8; 32])
        ensures
            bytes@ == self.serialized(),
    {
        let words: [u32; 8] = [
            self.signature,
            self.descriptor_version,
            self.descriptor_header_size_bytes,
            self.app_descriptor_size_bytes,
            self.app_descriptor_base_address,
            self.num_app_slots,
            self.active_app_slot,
            self.header_crc,
        ];
        assert(words@ =~= self.words());
        encode_words(words.as_slice())
    }

    /// The checksum of the header's current contents, the stored checksum left out.
    pub fn compute_crc(&self) -> (crc: u32)
        ensures
            crc == self.expected_crc(),
    {
        let words: [u32; 7] = [
            self.signature,
            self.descriptor_version,
            self.descriptor_header_size_bytes,
            self.app_descriptor_size_bytes,
            self.app_descriptor_base_address,
            self.num_app_slots,
            self.active_app_slot,
        ];
        assert(words@ =~= self.checksummed_words());
        let without_crc: [u8; 28] = encode_words(words.as_slice());
        checksum(without_crc.as_slice())
    }

    /// Whether the stored checksum is the checksum of the header's current contents.
    pub fn is_crc_valid(&self) -> (valid: bool)
        ensures
            valid == self.crc_matches(),
    {
        self.header_crc == self.compute_crc()
    }

    /// Reading back the bytes of a header gives the header.
    pub proof fn lemma_deserialize_serialized(self)
        ensures
            self.serialized().len() == BOOT_REGION_DESCRIPTOR_SIZE,
            Self::deserialized(self.serialized()) == self,
    {
        let words = self.words();
        lemma_word_at_encoded(words, 0);
        lemma_word_at_encoded(words, 1);
        lemma_word_at_encoded(words, 2);
        lemma_word_at_encoded(words, 3);
        lemma_word_at_encoded(words, 4);
        lemma_word_at_encoded(words, 5);
        lemma_word_at_encoded(words, 6);
        lemma_word_at_encoded(words, 7);
    }

    /// The bytes of the header that `bytes` represent are the first 32 of `bytes`, and the
    /// checksum that it calls for is the checksum of the first 28.
    pub proof fn lemma_serialize_deserialized(bytes: Seq<u8>)
        requires
            bytes.len() >= BOOT_REGION_DESCRIPTOR_SIZE,
        ensures
            Self::deserialized(bytes).serialized() == bytes.subrange(0, 32),
            Self::deserialized(bytes).expected_crc() == cksum(bytes.subrange(0, 28)),
    {
        let header = Self::deserialized(bytes);
        lemma_encode_decoded(bytes, 8);
        assert(header.words() =~= bytes_to_words(bytes, 8));
        lemma_encode_decoded(bytes, 7);
        assert(header.checksummed_words() =~= bytes_to_words(bytes, 7));
    }

    /// A header built for at least one slot, with the active slot among them, carries the
    /// checksum of its contents, and parsing its bytes gives the same header back.
    pub proof fn lemma_built_header_parses(
        app_slot_count: u32,
        active_app_slot: u32,
        app_descriptor_address: u32,
    )
        requires
            1 <= app_slot_count,
            active_app_slot < app_slot_count,
        ensures
            Self::built(app_slot_count, active_app_slot, app_descriptor_address).crc_matches(),
            Self::parsed(
                Self::built(app_slot_count, active_app_slot, app_descriptor_address).serialized(),
            ) == Ok::<Self, ParseError>(
                Self::built(app_slot_count, active_app_slot, app_descriptor_address),
            ),
    {
        let header = Self::built(app_slot_count, active_app_slot, app_descriptor_address);
        let unsigned = BootableRegionDescriptorHeader { header_crc: 0, ..header };
        assert(header.checksummed_words() =~= unsigned.checksummed_words());
        header.lemma_deserialize_serialized();
    }

    /// Bytes that do not start with the signature are rejected for that, whatever follows.
    pub proof fn lemma_wrong_signature_rejected(bytes: Seq<u8>)
        requires
            bytes.len() >= 4,
            bytes.subrange(0, 4) != words_to_bytes(seq![BOOT_REGION_DESCRIPTOR_SIGNATURE]),
        ensures
            Self::parsed(bytes) == Err::<Self, ParseError>(ParseError::InvalidSignature),
    {
        if word_at(bytes, 0) == BOOT_REGION_DESCRIPTOR_SIGNATURE {
            lemma_bytes_of_word(bytes[0], bytes[1], bytes[2], bytes[3]);
            assert(bytes.subrange(0, 4) =~= words_to_bytes(
                seq![BOOT_REGION_DESCRIPTOR_SIGNATURE],
            ));
        }
    }

    /// Changing one byte of a header that parses is detected, unless the changed contents
    /// happen to have the checksum of the contents before the change: the stored checksum
    /// no longer matches, and parsing reports the mismatch, or the broken signature where
    /// the changed byte is one of the first four.
    pub proof fn lemma_changed_byte_detected(bytes: Seq<u8>, index: int, value: u8)
        requires
            bytes.len() == BOOT_REGION_DESCRIPTOR_SIZE,
            Self::parsed(bytes) is Ok,
            0 <= index < bytes.len(),
            value != bytes[index],
            index < 28 ==> Self::deserialized(bytes.update(index, value)).expected_crc()
                != Self::deserialized(bytes).expected_crc(),
        ensures
            !Self::deserialized(bytes.update(index, value)).crc_matches(),
            index < 4 ==> Self::parsed(bytes.update(index, value)) == Err::<Self, ParseError>(
                ParseError::InvalidSignature,
            ),
            index >= 4 ==> Self::parsed(bytes.update(index, value)) == Err::<Self, ParseError>(
                ParseError::InvalidHeaderCrc {
                    found: Self::deserialized(bytes.update(index, value)).header_crc,
                    expected: Self::deserialized(bytes.update(index, value)).expected_crc(),
                },
            ),
    {
        let intact = Self::deserialized(bytes);
        let changed = Self::deserialized(bytes.update(index, value));
        if index >= 28 {
            assert(changed.checksummed_words() =~= intact.checksummed_words());
            assert(changed.header_crc != intact.header_crc);
        }
        if index < 4 {
            assert(changed.signature != intact.signature);
        }
    }
}

} // verus!
