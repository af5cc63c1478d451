//! The container header: byte-order marker, format version, and the offset
//! of the first directory, in the classic and in the Big layout.

use crate::byte_order::{
    lemma_capacities, lemma_uint_bytes_len, lemma_uint_round_trip, uint_bytes, uint_value,
    ByteOrder,
};
use crate::error::{parsed, ParseError};
use crate::nom_parsers::{nom_tag, nom_u16, nom_u32, nom_u64};
use vstd::prelude::*;
use vstd::string::{is_ascii_spec_bytes, StringSliceAdditionalSpecFns};

verus! {

/// The byte `I`, twice at the start of a little-endian file.
pub const MARKER_LITTLE: u8 = 0x49;

/// The byte `M`, twice at the start of a big-endian file.
pub const MARKER_BIG: u8 = 0x4D;

/// The format version of a classic file.
pub const MAGIC_CLASSIC: u16 = 42;

/// The format version of a Big file.
pub const MAGIC_BIG: u16 = 43;

/// What the header says of the whole file: the byte order of every later
/// integer, and whether offsets and counts are 8 bytes wide (Big) or 4 and 2
/// (classic).
#[derive(Clone, Copy, Debug, PartialEq, Eq, Structural)]
pub struct TifInfo {
    pub endianess: ByteOrder,
    pub big: bool,
}

/// The width in bytes of a file offset, and of the count and the value field
/// of a directory entry: 4 in a classic file, 8 in a Big one.
pub open spec fn spec_offset_width(big: bool) -> nat {
    if big {
        8
    } else {
        4
    }
}

/// The width in bytes of the number of entries of a directory: 2 in a
/// classic file, 8 in a Big one.
pub open spec fn spec_count_width(big: bool) -> nat {
    if big {
        8
    } else {
        2
    }
}

impl TifInfo {
    /// The width in bytes of a file offset.
    pub fn offset_width(&self) -> (w: usize)
        ensures
            w == spec_offset_width(self.big),
    {
        if self.big {
            8
        } else {
            4
        }
    }

    /// The width in bytes of the number of entries of a directory.
    pub fn count_width(&self) -> (w: usize)
        ensures
            w == spec_count_width(self.big),
    {
        if self.big {
            8
        } else {
            2
        }
    }
}

/// The marker `a a` at the start of `i`, which stands for `order`.
pub open spec fn spec_marker(i: Seq<u8>, a: u8, order: ByteOrder) -> Result<
    (Seq<u8>, ByteOrder),
    ParseError,
> {
    if i.len() < 2 {
        Err(ParseError::TruncatedInput)
    } else if i[0] == a && i[1] == a {
        Ok((i.skip(2), order))
    } else {
        Err(ParseError::InvalidByteOrderMarker)
    }
}

/// The byte order that the first two bytes of a file announce.
pub open spec fn spec_endianess(i: Seq<u8>) -> Result<(Seq<u8>, ByteOrder), ParseError> {
    if i.len() < 2 {
        Err(ParseError::TruncatedInput)
    } else if i[0] == MARKER_LITTLE && i[1] == MARKER_LITTLE {
        Ok((i.skip(2), ByteOrder::Little))
    } else if i[0] == MARKER_BIG && i[1] == MARKER_BIG {
        Ok((i.skip(2), ByteOrder::Big))
    } else {
        Err(ParseError::InvalidByteOrderMarker)
    }
}

/// The container variant that the two bytes of the format version announce:
/// `false` for classic, `true` for Big.
pub open spec fn spec_bigtiff(i: Seq<u8>, endianess: ByteOrder) -> Result<
    (Seq<u8>, bool),
    ParseError,
> {
    if i.len() < 2 {
        Err(ParseError::TruncatedInput)
    } else if uint_value(endianess, i.take(2)) == MAGIC_CLASSIC {
        Ok((i.skip(2), false))
    } else if uint_value(endianess, i.take(2)) == MAGIC_BIG {
        Ok((i.skip(2), true))
    } else {
        Err(ParseError::InvalidMagicNumber)
    }
}

/// The first four bytes of a file: the marker, then the format version read
/// in the order that the marker gave.
pub open spec fn spec_tif_header(i: Seq<u8>) -> Result<(Seq<u8>, TifInfo), ParseError> {
    match spec_endianess(i) {
        Err(e) => Err(e),
        Ok((_, endianess)) => match spec_bigtiff(i.skip(2), endianess) {
            Err(e) => Err(e),
            Ok((_, big)) => Ok((i.skip(4), TifInfo { endianess, big })),
        },
    }
}

/// The whole header, by the layout of the file's first bytes.
///
/// Classic: the offset of the first directory is in bytes 4 to 8. Big: bytes
/// 4 to 6 hold the offset size, which must be 8, bytes 6 to 8 must be 0, and
/// the offset is in bytes 8 to 16. The two fixed fields of a Big header are
/// checked as soon as they are there, before the offset is looked for.
pub open spec fn spec_initial_parse(i: Seq<u8>) -> Result<(Seq<u8>, (TifInfo, u64)), ParseError> {
    match spec_tif_header(i) {
        Err(e) => Err(e),
        Ok((_, info)) => if info.big {
            if i.len() < 8 {
                Err(ParseError::TruncatedInput)
            } else if uint_value(info.endianess, i.subrange(4, 6)) != 8 || uint_value(
                info.endianess,
                i.subrange(6, 8),
            ) != 0 {
                Err(ParseError::MalformedBigHeader)
            } else if i.len() < 16 {
                Err(ParseError::TruncatedInput)
            } else {
                Ok((i.skip(16), (info, uint_value(info.endianess, i.subrange(8, 16)) as u64)))
            }
        } else {
            if i.len() < 8 {
                Err(ParseError::TruncatedInput)
            } else {
                Ok((i.skip(8), (info, uint_value(info.endianess, i.subrange(4, 8)) as u64)))
            }
        },
    }
}

/// The number of entries at the start of a directory: two bytes in a classic
/// file, eight in a Big one.
pub open spec fn spec_first_ifd_count(i: Seq<u8>, info: TifInfo) -> Result<
    (Seq<u8>, u64),
    ParseError,
> {
    let width = spec_count_width(info.big) as int;
    if i.len() < width {
        Err(ParseError::TruncatedInput)
    } else {
        Ok((i.skip(width), uint_value(info.endianess, i.take(width)) as u64))
    }
}

/// The two bytes that announce a byte order.
pub open spec fn spec_marker_bytes(order: ByteOrder) -> Seq<u8> {
    match order {
        ByteOrder::Little => seq![MARKER_LITTLE, MARKER_LITTLE],
        ByteOrder::Big => seq![MARKER_BIG, MARKER_BIG],
    }
}

/// The bytes of the header of a file of the given kind whose first
/// directory is at `offset`: 8 bytes for a classic file, 16 for a Big one.
pub open spec fn spec_header_bytes(info: TifInfo, offset: u64) -> Seq<u8> {
    let order = info.endianess;
    if info.big {
        spec_marker_bytes(order) + uint_bytes(order, MAGIC_BIG as nat, 2) + uint_bytes(order, 8, 2)
            + uint_bytes(order, 0, 2) + uint_bytes(order, offset as nat, 8)
    } else {
        spec_marker_bytes(order) + uint_bytes(order, MAGIC_CLASSIC as nat, 2) + uint_bytes(
            order,
            offset as nat,
            4,
        )
    }
}

/// `II` at the start of a file announces little-endian and `MM` big-endian,
/// whatever follows; the marker is consumed and the rest handed back.
pub proof fn lemma_marker_decides(order: ByteOrder, rest: Seq<u8>)
    ensures
        spec_endianess(spec_marker_bytes(order) + rest) == Ok::<(Seq<u8>, ByteOrder), ParseError>(
            (rest, order),
        ),
{
    let i = spec_marker_bytes(order) + rest;
    assert(i.skip(2) =~= rest);
}

/// Two first bytes that are neither `II` nor `MM` are refused as an invalid
/// marker, whatever follows.
pub proof fn lemma_other_marker_refused(i: Seq<u8>)
    requires
        i.len() >= 2,
        i.take(2) != spec_marker_bytes(ByteOrder::Little),
        i.take(2) != spec_marker_bytes(ByteOrder::Big),
    ensures
        spec_endianess(i) == Err::<(Seq<u8>, ByteOrder), ParseError>(
            ParseError::InvalidByteOrderMarker,
        ),
{
    if i[0] == MARKER_LITTLE && i[1] == MARKER_LITTLE {
        assert(i.take(2) =~= spec_marker_bytes(ByteOrder::Little));
    }
    if i[0] == MARKER_BIG && i[1] == MARKER_BIG {
        assert(i.take(2) =~= spec_marker_bytes(ByteOrder::Big));
    }
}

/// A header written for a kind of file and an offset is read back as that
/// kind and that offset, in either byte order, and what follows the header
/// is handed back untouched. A classic header holds offsets of 32 bits.
pub proof fn lemma_header_round_trip(info: TifInfo, offset: u64, rest: Seq<u8>)
    requires
        !info.big ==> offset <= u32::MAX,
    ensures
        spec_initial_parse(spec_header_bytes(info, offset) + rest) == Ok::<
            (Seq<u8>, (TifInfo, u64)),
            ParseError,
        >((rest, (info, offset))),
{
    let order = info.endianess;
    let i = spec_header_bytes(info, offset) + rest;
    let marker = spec_marker_bytes(order);
    lemma_capacities();
    if info.big {
        let magic = uint_bytes(order, MAGIC_BIG as nat, 2);
        let size = uint_bytes(order, 8, 2);
        let zero = uint_bytes(order, 0, 2);
        let position = uint_bytes(order, offset as nat, 8);
        lemma_uint_bytes_len(order, MAGIC_BIG as nat, 2);
        lemma_uint_bytes_len(order, 8, 2);
        lemma_uint_bytes_len(order, 0, 2);
        lemma_uint_bytes_len(order, offset as nat, 8);
        lemma_uint_round_trip(order, MAGIC_BIG as nat, 2);
        lemma_uint_round_trip(order, 8, 2);
        lemma_uint_round_trip(order, 0, 2);
        lemma_uint_round_trip(order, offset as nat, 8);
        assert(i.len() == 16 + rest.len());
        assert(i[0] == marker[0] && i[1] == marker[1]);
        assert(i.skip(2).take(2) =~= magic);
        assert(i.subrange(4, 6) =~= size);
        assert(i.subrange(6, 8) =~= zero);
        assert(i.subrange(8, 16) =~= position);
        assert(i.skip(16) =~= rest);
    } else {
        let magic = uint_bytes(order, MAGIC_CLASSIC as nat, 2);
        let position = uint_bytes(order, offset as nat, 4);
        lemma_uint_bytes_len(order, MAGIC_CLASSIC as nat, 2);
        lemma_uint_bytes_len(order, offset as nat, 4);
        lemma_uint_round_trip(order, MAGIC_CLASSIC as nat, 2);
        lemma_uint_round_trip(order, offset as nat, 4);
        assert(i.len() == 8 + rest.len());
        assert(i[0] == marker[0] && i[1] == marker[1]);
        assert(i.skip(2).take(2) =~= magic);
        assert(i.subrange(4, 8) =~= position);
        assert(i.skip(8) =~= rest);
    }
}

/// A Big header gives an offset only where its offset size is 8 and its
/// reserved field is 0; with the two fields there and either of them
/// different, it is refused as malformed.
pub proof fn lemma_big_header_checked(i: Seq<u8>, info: TifInfo)
    requires
        spec_tif_header(i) == Ok::<(Seq<u8>, TifInfo), ParseError>((i.skip(4), info)),
        info.big,
    ensures
        spec_initial_parse(i) is Ok ==> uint_value(info.endianess, i.subrange(4, 6)) == 8
            && uint_value(info.endianess, i.subrange(6, 8)) == 0,
        i.len() >= 8 && (uint_value(info.endianess, i.subrange(4, 6)) != 8 || uint_value(
            info.endianess,
            i.subrange(6, 8),
        ) != 0) ==> spec_initial_parse(i) == Err::<(Seq<u8>, (TifInfo, u64)), ParseError>(
            ParseError::MalformedBigHeader,
        ),
{
}

/// The bytes of a two-letter ASCII marker.
proof fn lemma_marker_bytes(s: &str, a: char)
    requires
        s@ == seq![a, a],
        a as u32 <= 0x7f,
    ensures
        s.spec_bytes() == seq![a as u8, a as u8],
{
    assert(vstd::string::is_ascii(s));
    is_ascii_spec_bytes(s);
    assert(s.spec_bytes() =~= seq![a as u8, a as u8]);
}

/// Recognizes the marker `MM` of a big-endian file.
pub fn big_endian(i: &[u8]) -> (r: Result<(&[u8], ByteOrder), ParseError>)
    ensures
        parsed(r) == spec_marker(i@, MARKER_BIG, ByteOrder::Big),
{
    if i.len() < 2 {
        return Err(ParseError::TruncatedInput);
    }
    proof {
        reveal_strlit("MM");
        assert("MM"@ =~= seq!['M', 'M']);
        lemma_marker_bytes("MM", 'M');
    }
    match nom_tag("MM", i) {
        Ok((input, _)) => Ok((input, ByteOrder::Big)),
        Err(_) => Err(ParseError::InvalidByteOrderMarker),
    }
}

/// Recognizes the marker `II` of a little-endian file.
pub fn little_endian(i: &[u8]) -> (r: Result<(&[u8], ByteOrder), ParseError>)
    ensures
        parsed(r) == spec_marker(i@, MARKER_LITTLE, ByteOrder::Little),
{
    if i.len() < 2 {
        return Err(ParseError::TruncatedInput);
    }
    proof {
        reveal_strlit("II");
        assert("II"@ =~= seq!['I', 'I']);
        lemma_marker_bytes("II", 'I');
    }
    match nom_tag("II", i) {
        Ok((input, _)) => Ok((input, ByteOrder::Little)),
        Err(_) => Err(ParseError::InvalidByteOrderMarker),
    }
}

/// Detects the byte order from the first two bytes of a file: `II` is
/// little-endian, `MM` is big-endian, any other two bytes are refused as an
/// invalid marker, and fewer than two bytes as truncated.
pub fn endianess(i: &[u8]) -> (r: Result<(&[u8], ByteOrder), ParseError>)
    ensures
        parsed(r) == spec_endianess(i@),
{
    match little_endian(i) {
        Ok(found) => Ok(found),
        Err(_) => big_endian(i),
    }
}

/// Reads the format version in the given byte order: 42 is classic
/// (`false`), 43 is Big (`true`), any other number is refused as an invalid
/// magic number.
pub fn bigtiff(i: &[u8], endianess: ByteOrder) -> (r: Result<(&[u8], bool), ParseError>)
    ensures
        parsed(r) == spec_bigtiff(i@, endianess),
{
    match nom_u16(endianess, i) {
        Err(_) => Err(ParseError::TruncatedInput),
        Ok((input, magic_tiff_number)) => {
            if magic_tiff_number == MAGIC_CLASSIC {
                Ok((input, false))
            } else if magic_tiff_number == MAGIC_BIG {
                Ok((input, true))
            } else {
                Err(ParseError::InvalidMagicNumber)
            }
        },
    }
}

/// Reads the marker and the format version: the first four bytes of a file.
pub fn tif_header(i: &[u8]) -> (r: Result<(&[u8], TifInfo), ParseError>)
    ensures
        parsed(r) == spec_tif_header(i@),
{
    let (input, endian) = match endianess(i) {
        Ok(found) => found,
        Err(e) => { return Err(e); },
    };
    let (input, is_big) = match bigtiff(input, endian) {
        Ok(found) => found,
        Err(e) => { return Err(e); },
    };
    assert(i@.skip(2).skip(2) =~= i@.skip(4));
    Ok((input, TifInfo { endianess: endian, big: is_big }))
}

/// Reads the whole header and returns what it says of the file together
/// with the offset of the first directory, counted from the start of the file.
///
/// A Big header whose offset size is not 8 or whose reserved field is not 0
/// is refused as malformed and gives no offset.
pub fn initial_parse(i: &[u8]) -> (r: Result<(&[u8], (TifInfo, u64)), ParseError>)
    ensures
        parsed(r) == spec_initial_parse(i@),
{
    let (remainder, info) = match tif_header(i) {
        Ok(found) => found,
        Err(e) => { return Err(e); },
    };
    assert(i@.len() >= 4);
    if info.big {
        let (input, offset_bytesize) = match nom_u16(info.endianess, remainder) {
            Ok(found) => found,
            Err(_) => { return Err(ParseError::TruncatedInput); },
        };
        let (input, zero_constant) = match nom_u16(info.endianess, input) {
            Ok(found) => found,
            Err(_) => { return Err(ParseError::TruncatedInput); },
        };
        assert(i@.skip(4).take(2) =~= i@.subrange(4, 6));
        assert(i@.skip(4).skip(2).take(2) =~= i@.subrange(6, 8));
        if offset_bytesize != 8 || zero_constant != 0 {
            return Err(ParseError::MalformedBigHeader);
        }
        match nom_u64(info.endianess, input) {
            Err(_) => Err(ParseError::TruncatedInput),
            Ok((input, offset)) => {
                assert(i@.skip(4).skip(2).skip(2).take(8) =~= i@.subrange(8, 16));
                assert(i@.skip(4).skip(2).skip(2).skip(8) =~= i@.skip(16));
                Ok((input, (info, offset)))
            },
        }
    } else {
        match nom_u32(info.endianess, remainder) {
            Err(_) => Err(ParseError::TruncatedInput),
            Ok((input, offset)) => {
                assert(i@.skip(4).take(4) =~= i@.subrange(4, 8));
                assert(i@.skip(4).skip(4) =~= i@.skip(8));
                Ok((input, (info, offset as u64)))
            },
        }
    }
}

/// Reads the number of entries of a directory from its first bytes.
///
/// `i` starts at the directory's first byte.
pub fn first_ifd_count<'a>(i: &'a [u8], info: &TifInfo) -> (r: Result<(&'a [u8], u64), ParseError>)
    ensures
        parsed(r) == spec_first_ifd_count(i@, *info),
{
    if info.big {
        match nom_u64(info.endianess, i) {
            Err(_) => Err(ParseError::TruncatedInput),
            Ok(found) => Ok(found),
        }
    } else {
        match nom_u16(info.endianess, i) {
            Err(_) => Err(ParseError::TruncatedInput),
            Ok((remainder, count)) => Ok((remainder, count as u64)),
        }
    }
}

} // verus!
