use ec_slimloader_descriptors::wire::{encode_words, read_word};
use ec_slimloader_descriptors::{
    AppImageDescriptor, BootableRegionDescriptorHeader, Memory, ParseError,
    APP_IMAGE_DESCRIPTOR_SIZE, APP_IMAGE_FLAG_COPY_TO_EXECUTION_ADDRESS, APP_IMAGE_FLAG_NONE,
    APP_IMAGE_FLAG_SKIP_IMAGE_CRC_CHECK, BOOT_REGION_DESCRIPTOR_SIGNATURE,
    BOOT_REGION_DESCRIPTOR_SIZE, DESCRIPTOR_VERSION, DESCRIPTOR_VERSION_MAJOR,
    DESCRIPTOR_VERSION_MINOR, DESCRIPTOR_VERSION_PATCH,
};

#[test]
fn test_ram_descriptor_gen() {
    let app_image_descriptor = AppImageDescriptor::new_ram_image(
        0,
        0,
        0,
        APP_IMAGE_FLAG_NONE | APP_IMAGE_FLAG_SKIP_IMAGE_CRC_CHECK,
        0,
        0,
        0,
        0,
    );

    assert_ne!(app_image_descriptor.flags & APP_IMAGE_FLAG_COPY_TO_EXECUTION_ADDRESS, 0);
    let embedded_crc = app_image_descriptor.descriptor_crc;
    let computed_crc = app_image_descriptor.compute_crc();
    assert_eq!(embedded_crc, computed_crc);
}

#[test]
fn constants_have_their_documented_values() {
    assert_eq!(BOOT_REGION_DESCRIPTOR_SIGNATURE, 0x2222_2222);
    assert_eq!(BOOT_REGION_DESCRIPTOR_SIZE, 32);
    assert_eq!(APP_IMAGE_DESCRIPTOR_SIZE, 44);
    assert_eq!(APP_IMAGE_FLAG_NONE, 0);
    assert_eq!(APP_IMAGE_FLAG_COPY_TO_EXECUTION_ADDRESS, 1);
    assert_eq!(APP_IMAGE_FLAG_SKIP_IMAGE_CRC_CHECK, 2);
    assert_eq!(DESCRIPTOR_VERSION, 0x0000_0100);
    assert_eq!(DESCRIPTOR_VERSION_MAJOR, 0);
    assert_eq!(DESCRIPTOR_VERSION_MINOR, 1);
    assert_eq!(DESCRIPTOR_VERSION_PATCH, 0);
}

#[test]
fn words_are_little_endian() {
    let bytes: [u8; 8] = encode_words(&[0x1234_5678, 0xFFFF_FF00]);
    assert_eq!(bytes, [0x78, 0x56, 0x34, 0x12, 0x00, 0xFF, 0xFF, 0xFF]);
    assert_eq!(read_word(&bytes, 0), 0x1234_5678);
    assert_eq!(read_word(&bytes, 4), 0xFFFF_FF00);
    assert_eq!(read_word(&bytes, 2), 0xFF00_1234);
}

#[test]
fn header_new_fills_every_field() {
    let header = BootableRegionDescriptorHeader::new(3, 1, 0x40);
    assert_eq!(
        header,
        BootableRegionDescriptorHeader {
            signature: 0x2222_2222,
            descriptor_version: 0x0000_0100,
            descriptor_header_size_bytes: 32,
            app_descriptor_size_bytes: 44,
            app_descriptor_base_address: 0x40,
            num_app_slots: 3,
            active_app_slot: 1,
            header_crc: 0x55c8_ff47,
        }
    );
}

#[test]
fn header_checksum_is_crc32_cksum_of_first_28_bytes() {
    let header = BootableRegionDescriptorHeader::new(3, 1, 0x40);
    assert_eq!(header.compute_crc(), 0x55c8_ff47);
    let bytes = header.as_bytes();
    let reference = crc::Crc::<u32>::new(&crc::CRC_32_CKSUM).checksum(&bytes[..28]);
    assert_eq!(header.compute_crc(), reference);
    assert_eq!(BootableRegionDescriptorHeader::new(2, 0, 0x20).header_crc, 0xd5a1_05cd);
    assert_eq!(
        BootableRegionDescriptorHeader::new(1, 0, 0x1000_0020).header_crc,
        0x2106_7b4e
    );
}

#[test]
fn header_serializes_to_its_wire_bytes() {
    let header = BootableRegionDescriptorHeader::new(3, 1, 0x40);
    assert_eq!(
        header.as_bytes(),
        [
            34, 34, 34, 34, 0, 1, 0, 0, 32, 0, 0, 0, 44, 0, 0, 0, 64, 0, 0, 0, 3, 0, 0, 0, 1, 0,
            0, 0, 71, 255, 200, 85
        ]
    );
}

#[test]
fn built_headers_are_valid_and_parse_back() {
    for count in 1..=5u32 {
        for active in 0..count {
            let header = BootableRegionDescriptorHeader::new(count, active, 0x1000 + count);
            assert!(header.is_crc_valid());
            let bytes = header.as_bytes();
            assert_eq!(BootableRegionDescriptorHeader::from_bytes(&bytes), header);
            let memory = Memory { origin: 0x800, bytes: &bytes };
            assert_eq!(BootableRegionDescriptorHeader::from_address(memory, 0x800), Ok(header));
        }
    }
    let largest = BootableRegionDescriptorHeader::new(u32::MAX, u32::MAX - 1, u32::MAX);
    assert_eq!(
        BootableRegionDescriptorHeader::from_address(
            Memory { origin: 0, bytes: &largest.as_bytes() },
            0
        ),
        Ok(largest)
    );
}

#[test]
fn header_validation_reports_first_broken_rule() {
    let good = BootableRegionDescriptorHeader::new(2, 1, 0x20);
    let crc = good.header_crc;
    assert_eq!(good.validated(crc), Ok(good));

    let everything_wrong = BootableRegionDescriptorHeader {
        signature: 0x2222_2223,
        num_app_slots: 0,
        active_app_slot: 7,
        header_crc: 1,
        ..good
    };
    assert_eq!(everything_wrong.validated(2), Err(ParseError::InvalidSignature));

    let bad_crc = BootableRegionDescriptorHeader { signature: 0x2222_2222, ..everything_wrong };
    assert_eq!(
        bad_crc.validated(2),
        Err(ParseError::InvalidHeaderCrc { found: 1, expected: 2 })
    );
    assert_eq!(bad_crc.validated(1), Err(ParseError::InvalidSlotCount));

    let bad_active = BootableRegionDescriptorHeader { num_app_slots: 7, ..bad_crc };
    assert_eq!(bad_active.validated(1), Err(ParseError::InvalidAppSlot));
    let last_active = BootableRegionDescriptorHeader { active_app_slot: 6, ..bad_active };
    assert_eq!(last_active.validated(1), Ok(last_active));
}

#[test]
fn header_with_zero_slots_is_rejected_when_parsed() {
    let header = BootableRegionDescriptorHeader::new(0, 0, 0x20);
    assert!(header.is_crc_valid());
    let bytes = header.as_bytes();
    assert_eq!(
        BootableRegionDescriptorHeader::from_address(Memory { origin: 0, bytes: &bytes }, 0),
        Err(ParseError::InvalidSlotCount)
    );
}

#[test]
fn header_with_active_slot_out_of_range_is_rejected_when_parsed() {
    let bytes = BootableRegionDescriptorHeader::new(2, 2, 0x20).as_bytes();
    assert_eq!(
        BootableRegionDescriptorHeader::from_address(Memory { origin: 0, bytes: &bytes }, 0),
        Err(ParseError::InvalidAppSlot)
    );
}

#[test]
fn wrong_signature_is_reported_whatever_follows() {
    let valid = BootableRegionDescriptorHeader::new(2, 1, 0x20).as_bytes();
    for index in 0..4 {
        let mut bytes = valid;
        bytes[index] ^= 0x01;
        assert_eq!(
            BootableRegionDescriptorHeader::from_address(Memory { origin: 0, bytes: &bytes }, 0),
            Err(ParseError::InvalidSignature)
        );
    }
    let mut garbage = [0xA5u8; 32];
    garbage[0] = 0x22;
    garbage[1] = 0x22;
    garbage[2] = 0x22;
    assert_eq!(
        BootableRegionDescriptorHeader::from_address(Memory { origin: 0, bytes: &garbage }, 0),
        Err(ParseError::InvalidSignature)
    );
    assert_eq!(
        BootableRegionDescriptorHeader::from_address(Memory { origin: 0, bytes: &[0u8; 32] }, 0),
        Err(ParseError::InvalidSignature)
    );
}

#[test]
fn changing_any_header_byte_after_the_signature_breaks_the_checksum() {
    let header = BootableRegionDescriptorHeader::new(3, 1, 0x40);
    let valid = header.as_bytes();
    for index in 4..32 {
        let mut bytes = valid;
        bytes[index] ^= 0x80;
        let changed = BootableRegionDescriptorHeader::from_bytes(&bytes);
        assert!(!changed.is_crc_valid());
        let result =
            BootableRegionDescriptorHeader::from_address(Memory { origin: 0, bytes: &bytes }, 0);
        match result {
            Err(ParseError::InvalidHeaderCrc { found, expected }) => {
                assert_ne!(found, expected);
                assert_eq!(found, changed.header_crc);
                assert_eq!(expected, changed.compute_crc());
            }
            other => panic!("byte {}: {:?}", index, other),
        }
    }
    let mut bytes = valid;
    bytes[28] ^= 0xFF;
    assert_eq!(
        BootableRegionDescriptorHeader::from_address(Memory { origin: 0, bytes: &bytes }, 0),
        Err(ParseError::InvalidHeaderCrc { found: 0x55c8_ffb8, expected: 0x55c8_ff47 })
    );
}

#[test]
fn execute_in_place_image_runs_from_where_it_is_stored() {
    let descriptor =
        AppImageDescriptor::new_execute_in_place_image(0, 1, 2, APP_IMAGE_FLAG_NONE, 0x1000, 256, 0x1100);
    assert_eq!(
        descriptor,
        AppImageDescriptor {
            descriptor_version: 0x0000_0100,
            app_slot_number: 0,
            app_version: 1,
            security_version: 2,
            flags: 0,
            stored_address: 0x1000,
            image_size_bytes: 256,
            stored_crc_address: 0x1100,
            execution_copy_size_bytes: 0,
            execution_address: 0x1000,
            descriptor_crc: 0x5a9b_195d,
        }
    );
    assert!(descriptor.is_crc_valid());
}

#[test]
fn execute_in_place_image_keeps_the_flags_given() {
    let plain = AppImageDescriptor::new_execute_in_place_image(4, 0, 0, 0, 8, 16, 24);
    assert_eq!(plain.flags, 0);
    let flagged = AppImageDescriptor::new_execute_in_place_image(4, 0, 0, 3, 8, 16, 24);
    assert_eq!(flagged.flags, 3);
    assert_eq!(flagged.execution_copy_size_bytes, 0);
    assert_eq!(flagged.execution_address, 8);
}

#[test]
fn ram_image_forces_the_copy_flag() {
    let descriptor = AppImageDescriptor::new_ram_image(
        1,
        3,
        4,
        APP_IMAGE_FLAG_NONE,
        0x2000,
        512,
        0x2000_0000,
        0x2200,
    );
    assert_eq!(
        descriptor,
        AppImageDescriptor {
            descriptor_version: 0x0000_0100,
            app_slot_number: 1,
            app_version: 3,
            security_version: 4,
            flags: APP_IMAGE_FLAG_COPY_TO_EXECUTION_ADDRESS,
            stored_address: 0x2000,
            image_size_bytes: 512,
            stored_crc_address: 0x2200,
            execution_copy_size_bytes: 512,
            execution_address: 0x2000_0000,
            descriptor_crc: 0x7abd_1c3c,
        }
    );
    assert!(descriptor.is_crc_valid());

    let skipping = AppImageDescriptor::new_ram_image(0, 0, 0, 2, 0, 0, 0, 0);
    assert_eq!(skipping.flags, 3);
    assert_eq!(skipping.descriptor_crc, 0x8b71_7a4b);
    let already_set = AppImageDescriptor::new_ram_image(0, 0, 0, 0xFFFF_FFFF, 0, 0, 0, 0);
    assert_eq!(already_set.flags, 0xFFFF_FFFF);
}

#[test]
fn descriptor_serializes_to_its_wire_bytes() {
    let descriptor =
        AppImageDescriptor::new_execute_in_place_image(0, 1, 2, 0, 0x1000, 256, 0x1100);
    let bytes = descriptor.as_bytes();
    assert_eq!(
        bytes,
        [
            0, 1, 0, 0, 0, 0, 0, 0, 1, 0, 0, 0, 2, 0, 0, 0, 0, 0, 0, 0, 0, 16, 0, 0, 0, 1, 0, 0,
            0, 17, 0, 0, 0, 0, 0, 0, 0, 16, 0, 0, 93, 25, 155, 90
        ]
    );
    let reference = crc::Crc::<u32>::new(&crc::CRC_32_CKSUM).checksum(&bytes[..40]);
    assert_eq!(descriptor.compute_crc(), reference);
    assert_eq!(AppImageDescriptor::from_bytes(&bytes), descriptor);
}

#[test]
fn descriptor_field_order_puts_copy_size_before_execution_address() {
    let descriptor = AppImageDescriptor::new_ram_image(0, 0, 0, 0, 0, 0x0A0B_0C0D, 0x0102_0304, 0);
    let bytes = descriptor.as_bytes();
    assert_eq!(read_word(&bytes, 32), 0x0A0B_0C0D);
    assert_eq!(read_word(&bytes, 36), 0x0102_0304);
}

#[test]
fn descriptor_validation_reports_address_and_both_checksums() {
    let descriptor = AppImageDescriptor::new_ram_image(1, 3, 4, 0, 0x2000, 512, 0x2000_0000, 0x2200);
    assert_eq!(descriptor.validated(0x44, descriptor.descriptor_crc), Ok(descriptor));
    assert_eq!(
        descriptor.validated(0x44, 5),
        Err(ParseError::InvalidAppCrc { address: 0x44, found: 0x7abd_1c3c, expected: 5 })
    );
}

#[test]
fn descriptor_is_read_from_its_slot() {
    let first = AppImageDescriptor::new_execute_in_place_image(0, 1, 1, 0, 0x1000, 256, 0x1100);
    let second = AppImageDescriptor::new_ram_image(1, 2, 2, 0, 0x2000, 512, 0x2000_0000, 0x2200);
    let mut image = Vec::new();
    image.extend_from_slice(&first.as_bytes());
    image.extend_from_slice(&second.as_bytes());
    let memory = Memory { origin: 0x100, bytes: &image };
    assert_eq!(AppImageDescriptor::from_region(memory, 0x100, 0), Ok(first));
    assert_eq!(AppImageDescriptor::from_region(memory, 0x100, 1), Ok(second));
    assert_eq!(AppImageDescriptor::from_address(memory, 0x100 + 44), Ok(second));
}

#[test]
fn changing_any_descriptor_byte_breaks_the_checksum() {
    let descriptor =
        AppImageDescriptor::new_ram_image(1, 3, 4, 0, 0x2000, 512, 0x2000_0000, 0x2200);
    let valid = descriptor.as_bytes();
    for index in 0..44 {
        let mut bytes = valid;
        bytes[index] ^= 0x01;
        let changed = AppImageDescriptor::from_bytes(&bytes);
        assert!(!changed.is_crc_valid());
        let result = AppImageDescriptor::from_address(Memory { origin: 0x500, bytes: &bytes }, 0x500);
        match result {
            Err(ParseError::InvalidAppCrc { address, found, expected }) => {
                assert_eq!(address, 0x500);
                assert_ne!(found, expected);
                assert_eq!(found, changed.descriptor_crc);
                assert_eq!(expected, changed.compute_crc());
            }
            other => panic!("byte {}: {:?}", index, other),
        }
    }
}

#[test]
fn memory_covers_only_what_lies_within_the_window() {
    let bytes = [0u8; 64];
    let memory = Memory { origin: 0x1000, bytes: &bytes };
    assert!(memory.covers(0x1000, 64));
    assert!(memory.covers(0x1000, 0));
    assert!(memory.covers(0x1040, 0));
    assert!(memory.covers(0x1020, 32));
    assert!(!memory.covers(0x1020, 33));
    assert!(!memory.covers(0x0FFF, 1));
    assert!(!memory.covers(0x1041, 0));
    assert!(!memory.covers(0x1000, 65));
    assert!(!memory.covers(usize::MAX, 1));
    assert!(!memory.covers(0x1000, usize::MAX));
}

#[test]
fn memory_window_that_would_pass_the_last_address_is_cut_there() {
    let bytes = [0u8; 8];
    let memory = Memory { origin: usize::MAX - 3, bytes: &bytes };
    assert!(memory.covers(usize::MAX - 3, 3));
    assert!(!memory.covers(usize::MAX - 3, 4));
}

#[test]
fn memory_read_gives_the_bytes_at_the_address() {
    let bytes: Vec<u8> = (0u8..64).collect();
    let memory = Memory { origin: 0x1000, bytes: &bytes };
    assert_eq!(memory.read(0x1004, 3), &[4, 5, 6]);
    assert_eq!(memory.read(0x1000, 64), &bytes[..]);
    assert_eq!(memory.read(0x1040, 0), &[] as &[u8]);
}
