use tiff_directory::byte_order::ByteOrder;
use tiff_directory::entry::{
    byte_width, fits_inline, parse_big_ifd_entry, parse_entry, parse_entry_count,
    parse_entry_data, parse_entry_type, parse_ifd_entry, parse_ifd_id, parse_ifd_tag,
    resolve_entry, window_size, EntryType, IfdEntry, IfdEntryData, BIG_IFD_BUF_SIZE,
    IFD_BUF_SIZE,
};
use tiff_directory::error::ParseError;
use tiff_directory::tags::Tag;

const ALL_TYPES: [EntryType; 12] = [
    EntryType::Byte,
    EntryType::Ascii,
    EntryType::Short,
    EntryType::Long,
    EntryType::Rational,
    EntryType::SByte,
    EntryType::Undefined,
    EntryType::SShort,
    EntryType::SLong,
    EntryType::SRational,
    EntryType::Float,
    EntryType::Double,
];

#[test]
fn byte_widths_of_the_twelve_types() {
    let widths: Vec<u8> = ALL_TYPES.iter().map(byte_width).collect();
    assert_eq!(widths, vec![1, 1, 2, 4, 8, 1, 1, 2, 4, 8, 4, 8]);
}

#[test]
fn type_codes_are_1_to_12() {
    for (index, entry_type) in ALL_TYPES.iter().enumerate() {
        let code = index as u16 + 1;
        assert_eq!(entry_type.repr(), code);
        assert_eq!(EntryType::from_repr(code), Some(*entry_type));
    }
}

#[test]
fn every_other_type_code_is_unrecognized() {
    assert_eq!(EntryType::from_repr(0), None);
    for code in 13u16..=u16::MAX {
        assert_eq!(EntryType::from_repr(code), None);
    }
}

#[test]
fn window_sizes() {
    assert_eq!(IFD_BUF_SIZE, 12);
    assert_eq!(BIG_IFD_BUF_SIZE, 20);
    assert_eq!(window_size(false), 12);
    assert_eq!(window_size(true), 20);
}

#[test]
fn tag_identifier_is_two_bytes_in_the_byte_order() {
    assert_eq!(parse_ifd_id(&b"\x01\x00abc"[..], &ByteOrder::Little), Ok((&b"abc"[..], 1)));
    assert_eq!(parse_ifd_id(&b"\x01\x00abc"[..], &ByteOrder::Big), Ok((&b"abc"[..], 256)));
    assert_eq!(parse_ifd_id(&b"\xff\xfe"[..], &ByteOrder::Big), Ok((&b""[..], 0xfffe)));
    assert_eq!(parse_ifd_id(&b"\x01"[..], &ByteOrder::Big), Err(ParseError::TruncatedInput));
}

#[test]
fn tag_resolution() {
    assert_eq!(parse_ifd_tag(256), Some(Tag::ImageWidth));
    assert_eq!(parse_ifd_tag(254), Some(Tag::NewSubfileType));
    assert_eq!(parse_ifd_tag(42113), Some(Tag::GdalNoData));
    assert_eq!(parse_ifd_tag(0), None);
    assert_eq!(parse_ifd_tag(1), None);
    assert_eq!(parse_ifd_tag(260), None);
    assert_eq!(parse_ifd_tag(65536 + 256), None);
    assert_eq!(parse_ifd_tag(u64::MAX), None);
}

#[test]
fn type_code_in_big_endian() {
    assert_eq!(
        parse_entry_type(&b"\x00\x03x"[..], &ByteOrder::Big),
        Ok((&b"x"[..], Some(EntryType::Short)))
    );
    assert_eq!(parse_entry_type(&b"\x03\x00x"[..], &ByteOrder::Big), Ok((&b"x"[..], None)));
    assert_eq!(parse_entry_type(&b"\x03"[..], &ByteOrder::Big), Err(ParseError::TruncatedInput));
}

#[test]
fn count_is_four_or_eight_bytes() {
    assert_eq!(
        parse_entry_count(&b"\x01\x02\x03\x04rest"[..], &ByteOrder::Little, false),
        Ok((&b"rest"[..], 0x0403_0201))
    );
    assert_eq!(
        parse_entry_count(&b"\x01\x02\x03\x04rest"[..], &ByteOrder::Big, false),
        Ok((&b"rest"[..], 0x0102_0304))
    );
    assert_eq!(
        parse_entry_count(&b"\x01\x02\x03\x04\x05\x06\x07\x08rest"[..], &ByteOrder::Little, true),
        Ok((&b"rest"[..], 0x0807_0605_0403_0201))
    );
    assert_eq!(
        parse_entry_count(&b"\x01\x02\x03\x04\x05\x06\x07\x08rest"[..], &ByteOrder::Big, true),
        Ok((&b"rest"[..], 0x0102_0304_0506_0708))
    );
    assert_eq!(
        parse_entry_count(&b"\x01\x02\x03"[..], &ByteOrder::Big, false),
        Err(ParseError::TruncatedInput)
    );
    assert_eq!(
        parse_entry_count(&b"\x01\x02\x03\x04"[..], &ByteOrder::Big, true),
        Err(ParseError::TruncatedInput)
    );
}

#[test]
fn resolution_names_what_was_not_recognized() {
    assert_eq!(
        resolve_entry(256, Some(EntryType::Short)),
        Ok((Tag::ImageWidth, EntryType::Short))
    );
    assert_eq!(resolve_entry(1, Some(EntryType::Short)), Err(ParseError::UnrecognizedTag));
    assert_eq!(resolve_entry(256, None), Err(ParseError::UnrecognizedType));
    assert_eq!(resolve_entry(1, None), Err(ParseError::UnrecognizedTag));
}

#[test]
fn packing_rule_for_every_type_and_small_count() {
    for entry_type in ALL_TYPES.iter() {
        for count in 0u64..=20 {
            let needed = byte_width(entry_type) as u64 * count;
            assert_eq!(fits_inline(entry_type, count, false), needed <= 4);
            assert_eq!(fits_inline(entry_type, count, true), needed <= 8);
        }
    }
}

#[test]
fn packing_rule_with_counts_whose_product_overflows() {
    for entry_type in ALL_TYPES.iter() {
        for count in [u64::MAX, u64::MAX / 2 + 1, 1 << 62, 1 << 61, 1 << 32, 0x2000_0000] {
            assert!(!fits_inline(entry_type, count, false));
            assert!(!fits_inline(entry_type, count, true));
        }
    }
}

#[test]
fn classic_boundary_four_bytes_is_a_value() {
    // four values of one byte
    assert_eq!(
        parse_entry_data(&b"\x01\x02\x03\x04x"[..], Tag::Make, &ByteOrder::Little, &EntryType::Byte, 4, false),
        Ok((&b"x"[..], IfdEntryData::Value(&[1, 2, 3, 4])))
    );
    // two values of two bytes
    assert_eq!(
        parse_entry_data(&b"\x01\x02\x03\x04x"[..], Tag::Make, &ByteOrder::Big, &EntryType::Short, 2, false),
        Ok((&b"x"[..], IfdEntryData::Value(&[1, 2, 3, 4])))
    );
    // one value of four bytes
    assert_eq!(
        parse_entry_data(&b"\x01\x02\x03\x04x"[..], Tag::Make, &ByteOrder::Big, &EntryType::Long, 1, false),
        Ok((&b"x"[..], IfdEntryData::Value(&[1, 2, 3, 4])))
    );
}

#[test]
fn classic_boundary_five_bytes_is_a_reference() {
    assert_eq!(
        parse_entry_data(&b"\x01\x02\x03\x04x"[..], Tag::Make, &ByteOrder::Little, &EntryType::Byte, 5, false),
        Ok((&b"x"[..], IfdEntryData::Reference(0x0403_0201)))
    );
    assert_eq!(
        parse_entry_data(&b"\x01\x02\x03\x04x"[..], Tag::Make, &ByteOrder::Big, &EntryType::Ascii, 5, false),
        Ok((&b"x"[..], IfdEntryData::Reference(0x0102_0304)))
    );
    // three values of two bytes are six bytes
    assert_eq!(
        parse_entry_data(&b"\x01\x02\x03\x04x"[..], Tag::Make, &ByteOrder::Big, &EntryType::Short, 3, false),
        Ok((&b"x"[..], IfdEntryData::Reference(0x0102_0304)))
    );
    // one value of eight bytes
    assert_eq!(
        parse_entry_data(&b"\x01\x02\x03\x04x"[..], Tag::Make, &ByteOrder::Big, &EntryType::Double, 1, false),
        Ok((&b"x"[..], IfdEntryData::Reference(0x0102_0304)))
    );
}

#[test]
fn big_boundary_is_eight_bytes() {
    let field = &b"\x01\x02\x03\x04\x05\x06\x07\x08x"[..];
    assert_eq!(
        parse_entry_data(field, Tag::Make, &ByteOrder::Big, &EntryType::Byte, 8, true),
        Ok((&b"x"[..], IfdEntryData::Value(&[1, 2, 3, 4, 5, 6, 7, 8])))
    );
    assert_eq!(
        parse_entry_data(field, Tag::Make, &ByteOrder::Big, &EntryType::Rational, 1, true),
        Ok((&b"x"[..], IfdEntryData::Value(&[1, 2, 3, 4, 5, 6, 7, 8])))
    );
    assert_eq!(
        parse_entry_data(field, Tag::Make, &ByteOrder::Big, &EntryType::Byte, 9, true),
        Ok((&b"x"[..], IfdEntryData::Reference(0x0102_0304_0506_0708)))
    );
    assert_eq!(
        parse_entry_data(field, Tag::Make, &ByteOrder::Little, &EntryType::Long, 3, true),
        Ok((&b"x"[..], IfdEntryData::Reference(0x0807_0605_0403_0201)))
    );
}

#[test]
fn count_zero_is_a_value() {
    for entry_type in ALL_TYPES.iter() {
        assert_eq!(
            parse_entry_data(&b"\x01\x02\x03\x04"[..], Tag::Make, &ByteOrder::Big, entry_type, 0, false),
            Ok((&b""[..], IfdEntryData::Value(&[1, 2, 3, 4])))
        );
    }
}

#[test]
fn classification_does_not_depend_on_the_tag() {
    for tag in [Tag::ImageWidth, Tag::StripOffsets, Tag::Make, Tag::GdalNoData] {
        assert_eq!(
            parse_entry_data(&b"\x01\x02\x03\x04"[..], tag, &ByteOrder::Big, &EntryType::Long, 1, false),
            Ok((&b""[..], IfdEntryData::Value(&[1, 2, 3, 4])))
        );
        assert_eq!(
            parse_entry_data(&b"\x01\x02\x03\x04"[..], tag, &ByteOrder::Big, &EntryType::Long, 2, false),
            Ok((&b""[..], IfdEntryData::Reference(0x0102_0304)))
        );
    }
}

#[test]
fn value_field_must_be_whole() {
    assert_eq!(
        parse_entry_data(&b"\x01\x02\x03"[..], Tag::Make, &ByteOrder::Big, &EntryType::Byte, 1, false),
        Err(ParseError::TruncatedInput)
    );
    assert_eq!(
        parse_entry_data(&b"\x01\x02\x03"[..], Tag::Make, &ByteOrder::Big, &EntryType::Byte, 9, false),
        Err(ParseError::TruncatedInput)
    );
    assert_eq!(
        parse_entry_data(&b"\x01\x02\x03\x04\x05\x06\x07"[..], Tag::Make, &ByteOrder::Big, &EntryType::Byte, 1, true),
        Err(ParseError::TruncatedInput)
    );
}

#[test]
fn unrecognized_type_codes_give_none_and_consume_the_window() {
    // tag 256, type 0, count 1, then the value field and what follows the window
    let zero = &b"\x00\x01\x00\x00\x01\x00\x00\x00\x00\x01\x00\x00next"[..];
    assert_eq!(parse_ifd_entry(zero, &ByteOrder::Little), Ok((&b"next"[..], None)));
    // tag 256, type 13
    let thirteen = &b"\x00\x01\x0d\x00\x01\x00\x00\x00\x00\x01\x00\x00next"[..];
    assert_eq!(parse_ifd_entry(thirteen, &ByteOrder::Little), Ok((&b"next"[..], None)));
    // the same in a Big window
    let big = &b"\x01\x00\x00\x0d\x00\x00\x00\x00\x00\x00\x00\x01\x00\x00\x00\x00\x00\x00\x01\x00next"[..];
    assert_eq!(parse_big_ifd_entry(big, &ByteOrder::Big), Ok((&b"next"[..], None)));
}

#[test]
fn unrecognized_tag_gives_none_and_consumes_the_window() {
    let window = &b"\x01\x00\x03\x00\x01\x00\x00\x00\x00\x01\x00\x00next"[..];
    assert_eq!(parse_ifd_entry(window, &ByteOrder::Little), Ok((&b"next"[..], None)));
}

#[test]
fn window_must_be_whole_whatever_it_holds() {
    let recognized = &b"\x00\x01\x03\x00\x01\x00\x00\x00\x00\x01\x00\x00"[..];
    let dropped = &b"\x00\x01\x00\x00\x01\x00\x00\x00\x00\x01\x00\x00"[..];
    for length in 0..12 {
        assert_eq!(
            parse_ifd_entry(&recognized[..length], &ByteOrder::Little),
            Err(ParseError::TruncatedInput)
        );
        assert_eq!(
            parse_ifd_entry(&dropped[..length], &ByteOrder::Little),
            Err(ParseError::TruncatedInput)
        );
    }
    let big = &b"\x01\x00\x00\x03\x00\x00\x00\x00\x00\x00\x00\x01\x00\x00\x00\x00\x00\x00\x01\x00"[..];
    for length in 0..20 {
        assert_eq!(
            parse_big_ifd_entry(&big[..length], &ByteOrder::Big),
            Err(ParseError::TruncatedInput)
        );
    }
}

#[test]
fn classic_entry_in_big_endian() {
    // tag 273, type 4 (Long), count 2, offset 0x00000100
    let window = &b"\x01\x11\x00\x04\x00\x00\x00\x02\x00\x00\x01\x00"[..];
    assert_eq!(
        parse_ifd_entry(window, &ByteOrder::Big),
        Ok((
            &b""[..],
            Some(IfdEntry {
                tag_id: 273,
                type_: EntryType::Long,
                count: 2,
                data: IfdEntryData::Reference(0x100),
                endian: &ByteOrder::Big,
            }),
        ))
    );
}

#[test]
fn big_entry_with_inline_value() {
    // tag 256, type 3 (Short), count 4, eight bytes of values
    let window = &b"\x00\x01\x03\x00\x04\x00\x00\x00\x00\x00\x00\x00\x01\x00\x02\x00\x03\x00\x04\x00tail"[..];
    let order = ByteOrder::Little;
    let (rest, entry) = parse_big_ifd_entry(window, &order).unwrap();
    assert_eq!(rest, &b"tail"[..]);
    let entry = entry.unwrap();
    assert_eq!(entry.tag_id, 256);
    assert_eq!(entry.type_, EntryType::Short);
    assert_eq!(entry.count, 4);
    assert_eq!(entry.data, IfdEntryData::Value(&[1, 0, 2, 0, 3, 0, 4, 0]));
    assert_eq!(entry.value_bytes(), Some(&[1u8, 0, 2, 0, 3, 0, 4, 0][..]));
}

#[test]
fn big_entry_with_reference() {
    // tag 273, type 16-bit, count 5: ten bytes, stored at 0x0102030405060708
    let window = &b"\x01\x11\x00\x03\x00\x00\x00\x00\x00\x00\x00\x05\x01\x02\x03\x04\x05\x06\x07\x08"[..];
    assert_eq!(
        parse_entry(window, &ByteOrder::Big, true),
        Ok((
            &b""[..],
            Some(IfdEntry {
                tag_id: 273,
                type_: EntryType::Short,
                count: 5,
                data: IfdEntryData::Reference(0x0102_0304_0506_0708),
                endian: &ByteOrder::Big,
            }),
        ))
    );
}

#[test]
fn big_entry_with_a_count_beyond_32_bits() {
    let window = &b"\x01\x11\x00\x01\xff\xff\xff\xff\xff\xff\xff\xff\x00\x00\x00\x00\x00\x00\x00\x10"[..];
    let order = ByteOrder::Big;
    let (_, entry) = parse_big_ifd_entry(window, &order).unwrap();
    let entry = entry.unwrap();
    assert_eq!(entry.count, u64::MAX);
    assert_eq!(entry.data, IfdEntryData::Reference(16));
    assert_eq!(entry.value_bytes(), None);
}

#[test]
fn value_bytes_are_the_leading_bytes_of_the_field() {
    let order = ByteOrder::Little;
    let (_, entry) = parse_ifd_entry(&b"\x00\x01\x03\x00\x01\x00\x00\x00\x00\x01\x00\x00"[..], &order)
        .unwrap();
    let entry = entry.unwrap();
    assert_eq!(entry.data, IfdEntryData::Value(&[0, 1, 0, 0]));
    assert_eq!(entry.value_bytes(), Some(&[0u8, 1][..]));

    let empty = IfdEntry {
        tag_id: 256,
        type_: EntryType::Long,
        count: 0,
        data: IfdEntryData::Value(&[9, 9, 9, 9]),
        endian: &order,
    };
    assert_eq!(empty.value_bytes(), Some(&[][..]));

    let short_field = IfdEntry {
        tag_id: 256,
        type_: EntryType::Long,
        count: 2,
        data: IfdEntryData::Value(&[9, 9, 9, 9]),
        endian: &order,
    };
    assert_eq!(short_field.value_bytes(), None);

    let reference = IfdEntry {
        tag_id: 256,
        type_: EntryType::Long,
        count: 2,
        data: IfdEntryData::Reference(8),
        endian: &order,
    };
    assert_eq!(reference.value_bytes(), None);
}
