use junction::codec::{
    decode, encode, measure, print_name, read_header, read_tag, substitute_name, MountPointHeader,
};
use junction::layout::{
    HEADER_SIZE, MAX_PAYLOAD, MAX_REPARSE_DATA_SIZE, MOUNT_POINT_HEADER_SIZE, MOUNT_POINT_TAG,
    PATH_BUFFER_FIELD, UNICODE_NULL_SIZE, WCHAR_SIZE,
};
use junction::JunctionError;

fn units(text: &str) -> Vec<u16> {
    text.encode_utf16().collect()
}

/// Mount-point reparse data with the given fields and path buffer.
fn mount_point(data_length: u16, names: [u16; 4], path_buffer: &[u8]) -> Vec<u8> {
    let mut raw = MOUNT_POINT_TAG.to_le_bytes().to_vec();
    raw.extend_from_slice(&data_length.to_le_bytes());
    raw.extend_from_slice(&[0, 0]);
    for field in names {
        raw.extend_from_slice(&field.to_le_bytes());
    }
    raw.extend_from_slice(path_buffer);
    raw
}

#[test]
fn layout_constants_have_their_values() {
    assert_eq!(WCHAR_SIZE, 2);
    assert_eq!(UNICODE_NULL_SIZE, 2);
    assert_eq!(MOUNT_POINT_TAG, 0xA000_0003);
    assert_eq!(HEADER_SIZE, 8);
    assert_eq!(MOUNT_POINT_HEADER_SIZE, 8);
    assert_eq!(MAX_REPARSE_DATA_SIZE, 16 * 1024);
    assert_eq!(MAX_PAYLOAD, 16368);
    assert_eq!(PATH_BUFFER_FIELD, 16);
}

#[test]
fn measure_computes_every_field() {
    assert_eq!(
        measure(0),
        Ok(MountPointHeader {
            data_length: 20,
            substitute_name_offset: 0,
            substitute_name_length: 8,
            print_name_offset: 10,
            print_name_length: 0,
        })
    );
    assert_eq!(
        measure(10),
        Ok(MountPointHeader {
            data_length: 60,
            substitute_name_offset: 0,
            substitute_name_length: 28,
            print_name_offset: 30,
            print_name_length: 20,
        })
    );
}

#[test]
fn measure_keeps_the_layout_rules() {
    for n in [0usize, 1, 2, 3, 17, 260, 1000, 4086, 4087] {
        let header = measure(n).unwrap();
        assert_eq!(header.substitute_name_offset, 0);
        assert_eq!(
            header.print_name_offset,
            header.substitute_name_offset + header.substitute_name_length + 2
        );
        assert_eq!(header.substitute_name_length % 2, 0);
        assert_eq!(header.print_name_length % 2, 0);
        assert_eq!(header.print_name_length as usize, 2 * n);
        assert_eq!(header.substitute_name_length as usize, 2 * (n + 4));
        assert_eq!(
            header.data_length,
            8 + header.substitute_name_length + 2 + header.print_name_length + 2
        );
        assert!(header.data_length <= MAX_PAYLOAD);
        assert!(8 + header.data_length <= MAX_REPARSE_DATA_SIZE);
    }
}

#[test]
fn measure_draws_the_line_at_the_largest_size() {
    // 4087 units: payload 8 + 8182 + 2 + 8174 + 2 = 16368, the largest.
    assert_eq!(
        measure(4087),
        Ok(MountPointHeader {
            data_length: 16368,
            substitute_name_offset: 0,
            substitute_name_length: 8182,
            print_name_offset: 8184,
            print_name_length: 8174,
        })
    );
    // 4088 units: payload 8 + 8184 + 2 + 8176 + 2 = 16372.
    assert_eq!(measure(4088), Err(JunctionError::InputTooLong));
    assert_eq!(measure(4089), Err(JunctionError::InputTooLong));
    assert_eq!(measure(4090), Err(JunctionError::InputTooLong));
    assert_eq!(measure(32767), Err(JunctionError::InputTooLong));
    assert_eq!(measure(65535), Err(JunctionError::InputTooLong));
}

#[test]
fn measure_survives_lengths_that_overflow() {
    assert_eq!(measure(usize::MAX), Err(JunctionError::InputTooLong));
    assert_eq!(measure(usize::MAX - 3), Err(JunctionError::InputTooLong));
    assert_eq!(measure(usize::MAX - 4), Err(JunctionError::InputTooLong));
    assert_eq!(measure(usize::MAX / 2), Err(JunctionError::InputTooLong));
    assert_eq!(measure(usize::MAX / 2 - 4), Err(JunctionError::InputTooLong));
    assert_eq!(measure(usize::MAX / 4), Err(JunctionError::InputTooLong));
    assert_eq!(measure(usize::MAX / 4 - 3), Err(JunctionError::InputTooLong));
}

#[test]
fn encode_does_not_touch_a_verbatim_prefix() {
    let raw = encode(&units(r"\\?\C:\a")).unwrap();
    assert_eq!(print_name(&raw).unwrap(), units(r"\\?\C:\a"));
    assert_eq!(substitute_name(&raw).unwrap(), units(r"\??\\\?\C:\a"));
}

#[test]
fn encode_returns_no_more_than_it_announces() {
    for n in [0usize, 1, 5, 100, 4087] {
        let raw = encode(&vec![0x7Au16; n]).unwrap();
        let header = read_header(&raw).unwrap();
        assert_eq!(raw.len(), 8 + header.data_length as usize);
        assert_eq!(raw.len(), 28 + 4 * n);
        assert_eq!(&raw[raw.len() - 2..], &[0, 0]);
        let null = 16 + header.substitute_name_length as usize;
        assert_eq!(&raw[null..null + 2], &[0, 0]);
    }
}

#[test]
fn encode_rejects_what_does_not_fit() {
    assert_eq!(
        encode(&vec![0x7Au16; 4088]),
        Err(JunctionError::InputTooLong)
    );
    assert_eq!(
        encode(&vec![0x7Au16; 4089]),
        Err(JunctionError::InputTooLong)
    );
}

#[test]
fn read_header_gives_back_what_measure_computed() {
    for n in [0usize, 1, 9, 4087] {
        let raw = encode(&vec![0x41u16; n]).unwrap();
        assert_eq!(read_header(&raw), measure(n));
    }
}

#[test]
fn read_tag_wants_four_bytes() {
    assert_eq!(read_tag(&[]), Err(JunctionError::Malformed));
    assert_eq!(read_tag(&[3, 0, 0]), Err(JunctionError::Malformed));
    assert_eq!(read_tag(&[3, 0, 0, 0xA0]), Ok(MOUNT_POINT_TAG));
    assert_eq!(read_tag(&[0x78, 0x56, 0x34, 0x12, 9]), Ok(0x1234_5678));
}

#[test]
fn read_header_tells_wrong_kind_from_missing_bytes() {
    assert_eq!(read_header(&[3, 0, 0]), Err(JunctionError::Malformed));
    assert_eq!(
        read_header(&[0x0C, 0, 0, 0xA0]),
        Err(JunctionError::NotAJunction)
    );
    assert_eq!(
        read_header(&[0x0C, 0, 0, 0xA0, 0, 0, 0, 0, 0, 0, 0, 0, 0, 0, 0, 0]),
        Err(JunctionError::NotAJunction)
    );
    for len in 4..16usize {
        let raw = mount_point(8, [0, 0, 0, 0], &[]);
        assert_eq!(read_header(&raw[..len]), Err(JunctionError::Malformed));
    }
    assert_eq!(
        read_header(&mount_point(8, [1, 2, 3, 4], &[])),
        Ok(MountPointHeader {
            data_length: 8,
            substitute_name_offset: 1,
            substitute_name_length: 2,
            print_name_offset: 3,
            print_name_length: 4,
        })
    );
}

#[test]
fn read_header_reads_high_bytes() {
    let raw = mount_point(0x1234, [0xFFFF, 0x0100, 0x00FF, 0x8001], &[]);
    assert_eq!(
        read_header(&raw),
        Ok(MountPointHeader {
            data_length: 0x1234,
            substitute_name_offset: 0xFFFF,
            substitute_name_length: 0x0100,
            print_name_offset: 0x00FF,
            print_name_length: 0x8001,
        })
    );
}

#[test]
fn names_are_read_where_the_fields_point() {
    // "ab", null, "c", null, laid out print name first.
    let path_buffer = [0x63, 0, 0, 0, 0x61, 0, 0x62, 0, 0, 0];
    let raw = mount_point(18, [4, 4, 0, 2], &path_buffer);
    assert_eq!(substitute_name(&raw), Ok(units("ab")));
    assert_eq!(print_name(&raw), Ok(units("c")));
    assert_eq!(decode(&raw), Ok(units("ab")));
}

#[test]
fn names_may_reach_the_last_announced_byte() {
    let path_buffer = [0x61, 0, 0x62, 0];
    let raw = mount_point(12, [0, 4, 2, 2], &path_buffer);
    assert_eq!(substitute_name(&raw), Ok(units("ab")));
    assert_eq!(print_name(&raw), Ok(units("b")));
    // An empty name may stand at the very end.
    let raw = mount_point(12, [4, 0, 4, 1], &path_buffer);
    assert_eq!(substitute_name(&raw), Ok(Vec::new()));
    assert_eq!(print_name(&raw), Ok(Vec::new()));
}

#[test]
fn names_past_the_announced_data_are_malformed() {
    let path_buffer = [0x61, 0, 0x62, 0, 0x63, 0, 0x64, 0];
    // The buffer holds eight bytes of names, the data length admits four.
    let raw = mount_point(12, [0, 6, 4, 2], &path_buffer);
    assert_eq!(substitute_name(&raw), Err(JunctionError::Malformed));
    assert_eq!(print_name(&raw), Err(JunctionError::Malformed));
    assert_eq!(decode(&raw), Err(JunctionError::Malformed));
    let raw = mount_point(12, [6, 0, 0, 4], &path_buffer);
    assert_eq!(substitute_name(&raw), Err(JunctionError::Malformed));
    assert_eq!(print_name(&raw), Ok(units("ab")));
}

#[test]
fn data_length_past_the_buffer_is_malformed() {
    let path_buffer = [0x61, 0, 0x62, 0];
    let raw = mount_point(13, [0, 4, 0, 4], &path_buffer);
    assert_eq!(substitute_name(&raw), Err(JunctionError::Malformed));
    assert_eq!(print_name(&raw), Err(JunctionError::Malformed));
    let raw = mount_point(0xFFFF, [0, 0, 0, 0], &path_buffer);
    assert_eq!(substitute_name(&raw), Err(JunctionError::Malformed));
}

#[test]
fn data_length_short_of_the_mount_point_header_is_malformed() {
    for data_length in 0..8u16 {
        let raw = mount_point(data_length, [0, 0, 0, 0], &[0x61, 0]);
        assert_eq!(substitute_name(&raw), Err(JunctionError::Malformed));
        assert_eq!(print_name(&raw), Err(JunctionError::Malformed));
    }
    let raw = mount_point(8, [0, 0, 0, 0], &[]);
    assert_eq!(substitute_name(&raw), Ok(Vec::new()));
}

#[test]
fn largest_offsets_and_lengths_are_malformed_not_read() {
    let raw = mount_point(12, [0xFFFF, 0xFFFF, 0xFFFE, 0xFFFE], &[0x61, 0, 0x62, 0]);
    assert_eq!(substitute_name(&raw), Err(JunctionError::Malformed));
    assert_eq!(print_name(&raw), Err(JunctionError::Malformed));
    let mut big = vec![0u8; MAX_REPARSE_DATA_SIZE as usize - 16];
    big[0] = 0x61;
    let raw = mount_point(16376, [0, 0xFFFF, 0x8000, 0x8000], &big);
    assert_eq!(substitute_name(&raw), Err(JunctionError::Malformed));
    assert_eq!(print_name(&raw), Err(JunctionError::Malformed));
}

#[test]
fn odd_offsets_and_lengths_count_whole_units() {
    let path_buffer = [0x61, 0, 0x62, 0, 0x63, 0];
    // Offset 3 is unit 1, length 5 is two units.
    let raw = mount_point(14, [3, 5, 1, 3], &path_buffer);
    assert_eq!(substitute_name(&raw), Ok(units("bc")));
    assert_eq!(print_name(&raw), Ok(units("a")));
}

#[test]
fn decode_strips_exactly_one_device_prefix() {
    let raw = encode(&units(r"\??\C:\a")).unwrap();
    assert_eq!(substitute_name(&raw), Ok(units(r"\??\\??\C:\a")));
    assert_eq!(decode(&raw), Ok(units(r"\??\C:\a")));
}

#[test]
fn decode_leaves_other_names_alone() {
    for name in [r"C:\a", r"\?\C:\a", r"\??", r"\\?\C:\a", ""] {
        let wide = units(name);
        let mut path_buffer: Vec<u8> = Vec::new();
        for unit in &wide {
            path_buffer.extend_from_slice(&unit.to_le_bytes());
        }
        let bytes = path_buffer.len() as u16;
        let raw = mount_point(8 + bytes, [0, bytes, 0, 0], &path_buffer);
        assert_eq!(decode(&raw), Ok(wide));
    }
}

#[test]
fn decode_tells_the_three_failures_apart() {
    assert_eq!(decode(&[3, 0]), Err(JunctionError::Malformed));
    assert_eq!(
        decode(&[0x0C, 0, 0, 0xA0, 0, 0, 0, 0]),
        Err(JunctionError::NotAJunction)
    );
    assert_eq!(
        decode(&[3, 0, 0, 0xA0, 0, 0, 0, 0]),
        Err(JunctionError::Malformed)
    );
}

#[test]
fn header_can_be_copied_and_compared() {
    let header = measure(3).unwrap();
    let copy = header;
    assert_eq!(copy, header.clone());
    assert_ne!(header, measure(4).unwrap());
    assert!(format!("{:?}", header).contains("print_name_length: 6"));
}
