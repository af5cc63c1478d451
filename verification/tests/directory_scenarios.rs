use tiff_directory::byte_order::ByteOrder;
use tiff_directory::directory::{walk_directory, Directory, PendingReference};
use tiff_directory::entry::{parse_ifd_entry, EntryType, IfdEntry, IfdEntryData};
use tiff_directory::error::ParseError;
use tiff_directory::header::{initial_parse, TifInfo};
use tiff_directory::tags::Tag;

#[test]
fn classic_file_with_one_inline_entry() {
    let mut file: Vec<u8> = Vec::new();
    file.extend_from_slice(b"II");
    file.extend_from_slice(&[0x2A, 0x00]);
    file.extend_from_slice(&[0x10, 0x00, 0x00, 0x00]);
    file.extend_from_slice(&[0xAA; 8]);
    assert_eq!(file.len(), 0x10);
    file.extend_from_slice(&[0x01, 0x00]);
    file.extend_from_slice(&[0x00, 0x01, 0x03, 0x00, 0x01, 0x00, 0x00, 0x00, 0x00, 0x01, 0x00, 0x00]);

    let (_, (info, offset)) = initial_parse(&file).unwrap();
    assert_eq!(info, TifInfo { endianess: ByteOrder::Little, big: false });
    assert_eq!(offset, 0x10);

    let (rest, directory) = walk_directory(&file[offset as usize..], &info).unwrap();
    assert_eq!(rest, &b""[..]);
    assert!(directory.references.is_empty());
    assert_eq!(directory.entries.len(), 1);
    assert_eq!(directory.ordered.len(), 1);
    assert_eq!(directory.ordered[0], directory.entries[&256]);
    let entry = directory.entries[&256];
    assert_eq!(Tag::from_code(entry.tag_id), Some(Tag::ImageWidth));
    assert_eq!(entry.type_, EntryType::Short);
    assert_eq!(entry.count, 1);
    assert_eq!(entry.data, IfdEntryData::Value(&[0x00, 0x01, 0x00, 0x00]));
    assert_eq!(entry.value_bytes(), Some(&[0x00u8, 0x01][..]));
}

#[test]
fn empty_directory() {
    let info = TifInfo { endianess: ByteOrder::Big, big: false };
    let (rest, directory) = walk_directory(&b"\x00\x00next"[..], &info).unwrap();
    assert_eq!(rest, &b"next"[..]);
    assert_eq!(directory, Directory::new());
    assert!(directory.entries.is_empty());
    assert!(directory.references.is_empty());
}

#[test]
fn entries_are_routed_in_file_order() {
    let info = TifInfo { endianess: ByteOrder::Big, big: false };
    let mut body: Vec<u8> = vec![0x00, 0x05];
    // ImageWidth, Long, 1 value: inline
    let width = [0x01, 0x00, 0x00, 0x04, 0x00, 0x00, 0x00, 0x01, 0x00, 0x00, 0x02, 0x00];
    // StripOffsets, Long, 3 values: at offset 0x200
    let strips = [0x01, 0x11, 0x00, 0x04, 0x00, 0x00, 0x00, 0x03, 0x00, 0x00, 0x02, 0x00];
    // unknown tag 1
    let unknown_tag = [0x00, 0x01, 0x00, 0x04, 0x00, 0x00, 0x00, 0x01, 0x00, 0x00, 0x00, 0x00];
    // ImageLength with type code 13
    let unknown_type = [0x01, 0x01, 0x00, 0x0d, 0x00, 0x00, 0x00, 0x01, 0x00, 0x00, 0x00, 0x00];
    // StripByteCounts, Short, 3 values: at offset 0x300
    let counts = [0x01, 0x17, 0x00, 0x03, 0x00, 0x00, 0x00, 0x03, 0x00, 0x00, 0x03, 0x00];
    for window in [width, strips, unknown_tag, unknown_type, counts] {
        body.extend_from_slice(&window);
    }
    body.extend_from_slice(b"next");

    let (rest, directory) = walk_directory(&body, &info).unwrap();
    assert_eq!(rest, &b"next"[..]);
    assert_eq!(directory.entries.len(), 1);
    assert_eq!(
        directory.entries[&256],
        IfdEntry {
            tag_id: 256,
            type_: EntryType::Long,
            count: 1,
            data: IfdEntryData::Value(&[0x00, 0x00, 0x02, 0x00]),
            endian: &ByteOrder::Big,
        }
    );
    assert_eq!(
        directory.references,
        vec![
            PendingReference { window: &strips[..], type_: EntryType::Long, count: 3 },
            PendingReference { window: &counts[..], type_: EntryType::Short, count: 3 },
        ]
    );
    let tags_in_file_order: Vec<u64> = directory.ordered.iter().map(|entry| entry.tag_id).collect();
    assert_eq!(tags_in_file_order, vec![256, 273, 279]);
    assert_eq!(directory.ordered[1].data, IfdEntryData::Reference(0x200));
    assert_eq!(directory.ordered[2].data, IfdEntryData::Reference(0x300));
    assert_eq!(directory.references[0].byte_len(), Some(12));
    assert_eq!(directory.references[1].byte_len(), Some(6));
    // the retained window spells the offset at which the values are
    let order = ByteOrder::Big;
    let (_, again) = parse_ifd_entry(directory.references[0].window, &order).unwrap();
    assert_eq!(again.unwrap().data, IfdEntryData::Reference(0x200));
}

#[test]
fn of_two_entries_with_one_tag_the_later_stays() {
    let info = TifInfo { endianess: ByteOrder::Little, big: false };
    let mut body: Vec<u8> = vec![0x03, 0x00];
    body.extend_from_slice(&[0x00, 0x01, 0x03, 0x00, 0x01, 0x00, 0x00, 0x00, 0x0A, 0x00, 0x00, 0x00]);
    body.extend_from_slice(&[0x01, 0x01, 0x03, 0x00, 0x01, 0x00, 0x00, 0x00, 0x0B, 0x00, 0x00, 0x00]);
    body.extend_from_slice(&[0x00, 0x01, 0x04, 0x00, 0x01, 0x00, 0x00, 0x00, 0x0C, 0x00, 0x00, 0x00]);
    let (_, directory) = walk_directory(&body, &info).unwrap();
    assert_eq!(directory.entries.len(), 2);
    let tags_in_file_order: Vec<u64> = directory.ordered.iter().map(|entry| entry.tag_id).collect();
    assert_eq!(tags_in_file_order, vec![256, 257, 256]);
    assert_eq!(directory.ordered[0].data, IfdEntryData::Value(&[0x0A, 0, 0, 0]));
    assert_eq!(directory.entries[&256].type_, EntryType::Long);
    assert_eq!(directory.entries[&256].data, IfdEntryData::Value(&[0x0C, 0, 0, 0]));
    assert_eq!(directory.entries[&257].data, IfdEntryData::Value(&[0x0B, 0, 0, 0]));
}

#[test]
fn directory_that_ends_early_is_refused() {
    let info = TifInfo { endianess: ByteOrder::Little, big: false };
    let mut body: Vec<u8> = vec![0x02, 0x00];
    body.extend_from_slice(&[0x00, 0x01, 0x03, 0x00, 0x01, 0x00, 0x00, 0x00, 0x0A, 0x00, 0x00, 0x00]);
    body.extend_from_slice(&[0x01, 0x01, 0x03, 0x00, 0x01, 0x00, 0x00, 0x00, 0x0B, 0x00, 0x00]);
    assert_eq!(walk_directory(&body, &info), Err(ParseError::TruncatedInput));
    assert_eq!(walk_directory(&body[..1], &info), Err(ParseError::TruncatedInput));
    assert_eq!(walk_directory(&body[..2], &info), Err(ParseError::TruncatedInput));
    // a window that is dropped must be whole as well
    let mut dropped: Vec<u8> = vec![0x01, 0x00];
    dropped.extend_from_slice(&[0x01, 0x00, 0x00, 0x00, 0x00, 0x00, 0x00, 0x00, 0x00, 0x00, 0x00]);
    assert_eq!(walk_directory(&dropped, &info), Err(ParseError::TruncatedInput));
}

#[test]
fn big_directory() {
    let info = TifInfo { endianess: ByteOrder::Big, big: true };
    let mut body: Vec<u8> = vec![0, 0, 0, 0, 0, 0, 0, 2];
    // ImageWidth, Long, 2 values: eight bytes, inline
    let width = [
        0x01, 0x00, 0x00, 0x04, 0, 0, 0, 0, 0, 0, 0, 2, 0x00, 0x00, 0x04, 0x00, 0x00, 0x00, 0x03,
        0x00,
    ];
    // StripOffsets, Long, 3 values: twelve bytes, at offset 0x1_0000_0000
    let strips = [
        0x01, 0x11, 0x00, 0x04, 0, 0, 0, 0, 0, 0, 0, 3, 0, 0, 0, 1, 0, 0, 0, 0,
    ];
    body.extend_from_slice(&width);
    body.extend_from_slice(&strips);
    body.extend_from_slice(b"next");
    let (rest, directory) = walk_directory(&body, &info).unwrap();
    assert_eq!(rest, &b"next"[..]);
    assert_eq!(directory.entries.len(), 1);
    assert_eq!(
        directory.entries[&256].data,
        IfdEntryData::Value(&[0x00, 0x00, 0x04, 0x00, 0x00, 0x00, 0x03, 0x00])
    );
    assert_eq!(
        directory.references,
        vec![PendingReference { window: &strips[..], type_: EntryType::Long, count: 3 }]
    );
}

#[test]
fn routing_one_window_at_a_time() {
    let order = ByteOrder::Little;
    let inline = [0x00, 0x01, 0x03, 0x00, 0x01, 0x00, 0x00, 0x00, 0x0A, 0x00, 0x00, 0x00];
    let stored = [0x11, 0x01, 0x04, 0x00, 0x02, 0x00, 0x00, 0x00, 0x00, 0x02, 0x00, 0x00, 0x77];
    let dropped = [0x01, 0x00, 0x03, 0x00, 0x01, 0x00, 0x00, 0x00, 0x0A, 0x00, 0x00, 0x00];
    let mut directory = Directory::new();

    assert_eq!(directory.route(&inline, &order, false), Ok(&b""[..]));
    assert_eq!(directory.entries.len(), 1);
    assert_eq!(directory.references.len(), 0);

    assert_eq!(directory.route(&stored, &order, false), Ok(&b"\x77"[..]));
    assert_eq!(directory.entries.len(), 1);
    assert_eq!(
        directory.references,
        vec![PendingReference { window: &stored[..12], type_: EntryType::Long, count: 2 }]
    );

    assert_eq!(directory.ordered.len(), 2);
    let before_ordered = directory.ordered.clone();
    let before_entries = directory.entries.clone();
    let before_references = directory.references.clone();
    assert_eq!(directory.route(&dropped, &order, false), Ok(&b""[..]));
    assert_eq!(directory.ordered, before_ordered);
    assert_eq!(directory.entries, before_entries);
    assert_eq!(directory.references, before_references);

    assert_eq!(directory.route(&inline[..11], &order, false), Err(ParseError::TruncatedInput));
    assert_eq!(directory.route(&inline, &order, true), Err(ParseError::TruncatedInput));
    assert_eq!(directory.ordered, before_ordered);
    assert_eq!(directory.entries, before_entries);
    assert_eq!(directory.references, before_references);
}

#[test]
fn byte_len_of_a_reference() {
    let window = [0u8; 12];
    let small = PendingReference { window: &window, type_: EntryType::Rational, count: 3 };
    assert_eq!(small.byte_len(), Some(24));
    let none = PendingReference { window: &window, type_: EntryType::Byte, count: 0 };
    assert_eq!(none.byte_len(), Some(0));
    let largest = PendingReference { window: &window, type_: EntryType::Byte, count: u64::MAX };
    assert_eq!(largest.byte_len(), Some(u64::MAX));
    let too_large = PendingReference { window: &window, type_: EntryType::Short, count: u64::MAX };
    assert_eq!(too_large.byte_len(), None);
}
