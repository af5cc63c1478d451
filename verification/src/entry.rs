//! One entry of an image file directory: tag identifier, field type, count,
//! and a value field that holds either the value itself or the offset at
//! which the value is stored.

use crate::byte_order::{uint_value, ByteOrder};
use crate::error::{parsed, ParseError};
use crate::header::spec_offset_width;
use crate::nom_parsers::{nom_take, nom_u16, nom_u32, nom_u64};
use crate::tags::Tag;
use vstd::prelude::*;

verus! {

/// The size in bytes of an entry in a classic directory.
pub const IFD_BUF_SIZE: usize = 12;

/// The size in bytes of an entry in a Big directory.
pub const BIG_IFD_BUF_SIZE: usize = 20;

/// The twelve field types, stored in a file as the codes 1 to 12.
#[derive(Clone, Copy, Debug, PartialEq, Eq, Structural)]
pub enum EntryType {
    Byte,
    Ascii,
    Short,
    Long,
    Rational,
    SByte,
    Undefined,
    SShort,
    SLong,
    SRational,
    Float,
    Double,
}

impl EntryType {
    /// The code under which the type is stored in a file.
    pub open spec fn spec_repr(self) -> u16 {
        match self {
            EntryType::Byte => 1,
            EntryType::Ascii => 2,
            EntryType::Short => 3,
            EntryType::Long => 4,
            EntryType::Rational => 5,
            EntryType::SByte => 6,
            EntryType::Undefined => 7,
            EntryType::SShort => 8,
            EntryType::SLong => 9,
            EntryType::SRational => 10,
            EntryType::Float => 11,
            EntryType::Double => 12,
        }
    }

    /// The type that a code stands for; none for 0 and for codes above 12.
    pub open spec fn spec_from_repr(discriminant: u16) -> Option<EntryType> {
        if discriminant == 1 {
            Some(EntryType::Byte)
        } else if discriminant == 2 {
            Some(EntryType::Ascii)
        } else if discriminant == 3 {
            Some(EntryType::Short)
        } else if discriminant == 4 {
            Some(EntryType::Long)
        } else if discriminant == 5 {
            Some(EntryType::Rational)
        } else if discriminant == 6 {
            Some(EntryType::SByte)
        } else if discriminant == 7 {
            Some(EntryType::Undefined)
        } else if discriminant == 8 {
            Some(EntryType::SShort)
        } else if discriminant == 9 {
            Some(EntryType::SLong)
        } else if discriminant == 10 {
            Some(EntryType::SRational)
        } else if discriminant == 11 {
            Some(EntryType::Float)
        } else if discriminant == 12 {
            Some(EntryType::Double)
        } else {
            None
        }
    }

    /// The code under which the type is stored in a file.
    pub fn repr(&self) -> (v: u16)
        ensures
            v == self.spec_repr(),
            1 <= v <= 12,
    {
        match self {
            EntryType::Byte => 1,
            EntryType::Ascii => 2,
            EntryType::Short => 3,
            EntryType::Long => 4,
            EntryType::Rational => 5,
            EntryType::SByte => 6,
            EntryType::Undefined => 7,
            EntryType::SShort => 8,
            EntryType::SLong => 9,
            EntryType::SRational => 10,
            EntryType::Float => 11,
            EntryType::Double => 12,
        }
    }

    /// Resolves a type code. The codes 1 to 12 give their type, every other
    /// code gives `None`.
    pub fn from_repr(discriminant: u16) -> (r: Option<EntryType>)
        ensures
            r == EntryType::spec_from_repr(discriminant),
            r is Some <==> 1 <= discriminant <= 12,
            r matches Some(entry_type) ==> entry_type.spec_repr() == discriminant,
    {
        match discriminant {
            1 => Some(EntryType::Byte),
            2 => Some(EntryType::Ascii),
            3 => Some(EntryType::Short),
            4 => Some(EntryType::Long),
            5 => Some(EntryType::Rational),
            6 => Some(EntryType::SByte),
            7 => Some(EntryType::Undefined),
            8 => Some(EntryType::SShort),
            9 => Some(EntryType::SLong),
            10 => Some(EntryType::SRational),
            11 => Some(EntryType::Float),
            12 => Some(EntryType::Double),
            _ => None,
        }
    }
}

/// The number of bytes that one value of a field type takes.
pub open spec fn spec_byte_width(entry_type: EntryType) -> u8 {
    match entry_type {
        EntryType::Byte | EntryType::SByte | EntryType::Undefined | EntryType::Ascii => 1,
        EntryType::Short | EntryType::SShort => 2,
        EntryType::Long | EntryType::SLong | EntryType::Float => 4,
        EntryType::Rational | EntryType::SRational | EntryType::Double => 8,
    }
}

/// The number of bytes that one value of a field type takes.
pub fn byte_width(entry_type: &EntryType) -> (w: u8)
    ensures
        w == spec_byte_width(*entry_type),
{
    match entry_type {
        EntryType::Byte | EntryType::SByte | EntryType::Undefined | EntryType::Ascii => 1,
        EntryType::Short | EntryType::SShort => 2,
        EntryType::Long | EntryType::SLong | EntryType::Float => 4,
        EntryType::Rational | EntryType::SRational | EntryType::Double => 8,
    }
}

/// The size in bytes of one entry: 12 in a classic file, 20 in a Big one.
pub open spec fn spec_window_size(big: bool) -> nat {
    4 + 2 * spec_offset_width(big)
}

/// The size in bytes of one entry: 12 in a classic file, 20 in a Big one.
pub fn window_size(big: bool) -> (size: usize)
    ensures
        size == spec_window_size(big),
{
    if big {
        BIG_IFD_BUF_SIZE
    } else {
        IFD_BUF_SIZE
    }
}

/// The width in bytes of the count and of the value field of an entry.
fn field_width(big: bool) -> (width: usize)
    ensures
        width == spec_offset_width(big),
{
    if big {
        8
    } else {
        4
    }
}

/// The packing rule: the values of an entry are stored in the entry itself
/// exactly when all of them together fit in its value field.
pub open spec fn spec_fits_inline(entry_type: EntryType, count: u64, big: bool) -> bool {
    spec_byte_width(entry_type) * count <= spec_offset_width(big)
}

/// Decides by the packing rule whether the values of an entry are stored in
/// the entry itself. Nothing but the type, the count and the container
/// variant enters the decision.
pub fn fits_inline(entry_type: &EntryType, count: u64, big: bool) -> (inline: bool)
    ensures
        inline == spec_fits_inline(*entry_type, count, big),
{
    let width: u64 = byte_width(entry_type) as u64;
    let limit: u64 = field_width(big) as u64;
    if count > limit {
        assert(width * count > limit) by (nonlinear_arith)
            requires
                width >= 1,
                count > limit,
        ;
        false
    } else {
        assert(width * count <= 64) by (nonlinear_arith)
            requires
                width <= 8,
                count <= 8,
        ;
        width * count <= limit
    }
}

/// What the value field of an entry holds.
#[derive(Clone, Copy, Debug, PartialEq, Eq)]
pub enum IfdEntryData<'a> {
    /// The bytes of the value field; the values themselves are the first
    /// bytes of it, as many as type and count ask for.
    Value(&'a [u8]),
    /// The offset in the file at which the values are stored.
    Reference(u64),
}

/// An `IfdEntryData` with its bytes as a sequence.
pub enum IfdEntryDataView {
    Value(Seq<u8>),
    Reference(u64),
}

impl<'a> View for IfdEntryData<'a> {
    type V = IfdEntryDataView;

    open spec fn view(&self) -> IfdEntryDataView {
        match *self {
            IfdEntryData::Value(bytes) => IfdEntryDataView::Value(bytes@),
            IfdEntryData::Reference(offset) => IfdEntryDataView::Reference(offset),
        }
    }
}

/// One decoded entry of a directory.
#[derive(Clone, Copy, Debug, PartialEq, Eq)]
pub struct IfdEntry<'a> {
    pub tag_id: u64,
    pub type_: EntryType,
    pub count: u64,
    pub data: IfdEntryData<'a>,
    pub endian: &'a ByteOrder,
}

/// An `IfdEntry` with its bytes as a sequence.
pub struct IfdEntryView {
    pub tag_id: u64,
    pub type_: EntryType,
    pub count: u64,
    pub data: IfdEntryDataView,
    pub endian: ByteOrder,
}

impl<'a> View for IfdEntry<'a> {
    type V = IfdEntryView;

    open spec fn view(&self) -> IfdEntryView {
        IfdEntryView {
            tag_id: self.tag_id,
            type_: self.type_,
            count: self.count,
            data: self.data@,
            endian: *self.endian,
        }
    }
}

impl<'a> IfdEntry<'a> {
    /// The bytes of the values of an entry that stores them in itself: the
    /// first `byte_width * count` bytes of its value field.
    pub open spec fn spec_value_bytes(self) -> Option<Seq<u8>> {
        match self.data {
            IfdEntryData::Value(bytes) => if spec_byte_width(self.type_) * self.count
                <= bytes@.len() {
                Some(bytes@.take(spec_byte_width(self.type_) * self.count))
            } else {
                None
            },
            IfdEntryData::Reference(_) => None,
        }
    }

    /// The bytes of the values of an entry that stores them in itself.
    /// `None` for an entry that refers to an offset, and for one whose value
    /// field is too short for its type and count.
    pub fn value_bytes(&self) -> (r: Option<&'a [u8]>)
        ensures
            match r {
                Some(bytes) => Some(bytes@),
                None => None,
            } == self.spec_value_bytes(),
    {
        match self.data {
            IfdEntryData::Reference(_) => None,
            IfdEntryData::Value(bytes) => {
                let width: u64 = byte_width(&self.type_) as u64;
                let available: usize = bytes.len();
                match width.checked_mul(self.count) {
                    None => None,
                    Some(needed) => {
                        if needed > available as u64 {
                            None
                        } else {
                            match nom_take(needed as usize, bytes) {
                                Ok((_, values)) => Some(values),
                                Err(_) => None,
                            }
                        }
                    },
                }
            },
        }
    }
}

/// What a parser of a value field returned, with all bytes as sequences.
pub open spec fn parsed_data(r: Result<(&[u8], IfdEntryData), ParseError>) -> Result<
    (Seq<u8>, IfdEntryDataView),
    ParseError,
> {
    match r {
        Ok((rest, data)) => Ok((rest@, data@)),
        Err(e) => Err(e),
    }
}

/// What a parser of an entry returned, with all bytes as sequences.
pub open spec fn parsed_entry(r: Result<(&[u8], Option<IfdEntry>), ParseError>) -> Result<
    (Seq<u8>, Option<IfdEntryView>),
    ParseError,
> {
    match r {
        Ok((rest, Some(entry))) => Ok((rest@, Some(entry@))),
        Ok((rest, None)) => Ok((rest@, None)),
        Err(e) => Err(e),
    }
}

/// The resolution of an entry's tag identifier and field type: the first
/// of the two that is not recognized is named, the tag before the type.
pub open spec fn spec_resolve_entry(tag_id: u64, entry_type: Option<EntryType>) -> Result<
    (Tag, EntryType),
    ParseError,
> {
    match (Tag::spec_from_code(tag_id), entry_type) {
        (None, _) => Err(ParseError::UnrecognizedTag),
        (Some(_), None) => Err(ParseError::UnrecognizedType),
        (Some(tag), Some(type_)) => Ok((tag, type_)),
    }
}

/// What the value field `field` of an entry holds, by the packing rule.
pub open spec fn spec_entry_data(
    field: Seq<u8>,
    endian: ByteOrder,
    type_: EntryType,
    count: u64,
    big: bool,
) -> IfdEntryDataView {
    if spec_fits_inline(type_, count, big) {
        IfdEntryDataView::Value(field)
    } else {
        IfdEntryDataView::Reference(uint_value(endian, field) as u64)
    }
}

/// The entry that the bytes of one window spell, if its tag and type are
/// recognized.
///
/// The tag identifier is in bytes 0 to 2 and the type code in bytes 2 to 4.
/// The count follows in 4 bytes (classic) or 8 (Big), and the value field
/// in as many again.
pub open spec fn spec_entry(window: Seq<u8>, endian: ByteOrder, big: bool) -> Option<
    IfdEntryView,
> {
    let width = spec_offset_width(big) as int;
    let tag_id = uint_value(endian, window.subrange(0, 2)) as u64;
    let entry_type = EntryType::spec_from_repr(uint_value(endian, window.subrange(2, 4)) as u16);
    let count = uint_value(endian, window.subrange(4, 4 + width)) as u64;
    let field = window.subrange(4 + width, 4 + 2 * width);
    match spec_resolve_entry(tag_id, entry_type) {
        Ok((_, type_)) => Some(
            IfdEntryView {
                tag_id,
                type_,
                count,
                data: spec_entry_data(field, endian, type_, count, big),
                endian,
            },
        ),
        Err(_) => None,
    }
}

/// The decoding of the entry at the start of `i`: the input after the
/// entry's window, whatever the entry holds, and the entry if its tag and
/// type are recognized.
pub open spec fn spec_parse_entry(i: Seq<u8>, endian: ByteOrder, big: bool) -> Result<
    (Seq<u8>, Option<IfdEntryView>),
    ParseError,
> {
    let size = spec_window_size(big) as int;
    if i.len() < size {
        Err(ParseError::TruncatedInput)
    } else {
        Ok((i.skip(size), spec_entry(i.take(size), endian, big)))
    }
}

/// The tag identifier at the start of `i`.
pub open spec fn spec_parse_ifd_id(i: Seq<u8>, endian: ByteOrder) -> Result<
    (Seq<u8>, u64),
    ParseError,
> {
    if i.len() < 2 {
        Err(ParseError::TruncatedInput)
    } else {
        Ok((i.skip(2), uint_value(endian, i.take(2)) as u64))
    }
}

/// The field type at the start of `i`, if its code is recognized.
pub open spec fn spec_parse_entry_type(i: Seq<u8>, endian: ByteOrder) -> Result<
    (Seq<u8>, Option<EntryType>),
    ParseError,
> {
    if i.len() < 2 {
        Err(ParseError::TruncatedInput)
    } else {
        Ok((i.skip(2), EntryType::spec_from_repr(uint_value(endian, i.take(2)) as u16)))
    }
}

/// The count at the start of `i`.
pub open spec fn spec_parse_entry_count(i: Seq<u8>, endian: ByteOrder, big: bool) -> Result<
    (Seq<u8>, u64),
    ParseError,
> {
    let width = spec_offset_width(big) as int;
    if i.len() < width {
        Err(ParseError::TruncatedInput)
    } else {
        Ok((i.skip(width), uint_value(endian, i.take(width)) as u64))
    }
}

/// The value field at the start of `i`, classified by the packing rule.
pub open spec fn spec_parse_entry_data(
    i: Seq<u8>,
    endian: ByteOrder,
    type_: EntryType,
    count: u64,
    big: bool,
) -> Result<(Seq<u8>, IfdEntryDataView), ParseError> {
    let width = spec_offset_width(big) as int;
    if i.len() < width {
        Err(ParseError::TruncatedInput)
    } else {
        Ok((i.skip(width), spec_entry_data(i.take(width), endian, type_, count, big)))
    }
}

/// The packing rule at its boundary: values that fill the value field
/// exactly are stored in it, one byte more and they are stored elsewhere.
/// An entry without values is stored in the field. The tag plays no part.
pub proof fn lemma_packing_boundary(type_: EntryType, count: u64, big: bool)
    ensures
        count == 0 ==> spec_fits_inline(type_, count, big),
        spec_byte_width(type_) * count == spec_offset_width(big) ==> spec_fits_inline(
            type_,
            count,
            big,
        ),
        spec_byte_width(type_) * count == spec_offset_width(big) + 1 ==> !spec_fits_inline(
            type_,
            count,
            big,
        ),
{
    if count == 0 {
        assert(spec_byte_width(type_) * count == 0) by (nonlinear_arith)
            requires
                count == 0,
        ;
    }
}

/// What a value field is taken for depends on the packing rule alone: its
/// own bytes where the values fit, the offset that it spells where not.
pub proof fn lemma_packing_rule(
    field: Seq<u8>,
    endian: ByteOrder,
    type_: EntryType,
    count: u64,
    big: bool,
)
    ensures
        spec_byte_width(type_) * count <= spec_offset_width(big) ==> spec_entry_data(
            field,
            endian,
            type_,
            count,
            big,
        ) == IfdEntryDataView::Value(field),
        spec_byte_width(type_) * count > spec_offset_width(big) ==> spec_entry_data(
            field,
            endian,
            type_,
            count,
            big,
        ) == IfdEntryDataView::Reference(uint_value(endian, field) as u64),
{
}

/// Decoding consumes the window of an entry whatever the window holds:
/// with a whole window there it succeeds and hands back what follows the
/// window; with less it fails as truncated.
pub proof fn lemma_window_consumed(i: Seq<u8>, endian: ByteOrder, big: bool)
    ensures
        i.len() >= spec_window_size(big) ==> spec_parse_entry(i, endian, big) is Ok
            && spec_parse_entry(i, endian, big)->Ok_0.0 == i.skip(spec_window_size(big) as int),
        i.len() < spec_window_size(big) ==> spec_parse_entry(i, endian, big) == Err::<
            (Seq<u8>, Option<IfdEntryView>),
            ParseError,
        >(ParseError::TruncatedInput),
{
}

/// An entry is dropped exactly when its tag identifier or its type code is
/// not recognized; the type codes that are recognized are 1 to 12.
pub proof fn lemma_dropped_when_unrecognized(window: Seq<u8>, endian: ByteOrder, big: bool)
    ensures
        spec_entry(window, endian, big) is None <==> (Tag::spec_from_code(
            uint_value(endian, window.subrange(0, 2)) as u64,
        ) is None || !(1 <= uint_value(endian, window.subrange(2, 4)) as u16 <= 12)),
{
}

/// Reads the tag identifier of an entry: two bytes, widened to 64 bits.
pub fn parse_ifd_id<'a>(i: &'a [u8], endian: &ByteOrder) -> (r: Result<(&'a [u8], u64), ParseError>)
    ensures
        parsed(r) == spec_parse_ifd_id(i@, *endian),
{
    match nom_u16(*endian, i) {
        Err(_) => Err(ParseError::TruncatedInput),
        Ok((remainder, tag_number)) => Ok((remainder, tag_number as u64)),
    }
}

/// Resolves a tag identifier to the tag that it names, if it names one.
pub fn parse_ifd_tag(tag_number: u64) -> (r: Option<Tag>)
    ensures
        r == Tag::spec_from_code(tag_number),
{
    Tag::try_from(tag_number).ok()
}

/// Reads the type code of an entry: two bytes, resolved to a field type
/// where the code is one of 1 to 12.
pub fn parse_entry_type<'a>(i: &'a [u8], endian: &ByteOrder) -> (r: Result<
    (&'a [u8], Option<EntryType>),
    ParseError,
>)
    ensures
        parsed(r) == spec_parse_entry_type(i@, *endian),
{
    match nom_u16(*endian, i) {
        Err(_) => Err(ParseError::TruncatedInput),
        Ok((remainder, entry_type)) => Ok((remainder, EntryType::from_repr(entry_type))),
    }
}

/// Reads the count of an entry: four bytes in a classic file, eight in a
/// Big one, widened to 64 bits.
pub fn parse_entry_count<'a>(i: &'a [u8], endian: &ByteOrder, big: bool) -> (r: Result<
    (&'a [u8], u64),
    ParseError,
>)
    ensures
        parsed(r) == spec_parse_entry_count(i@, *endian, big),
{
    if big {
        match nom_u64(*endian, i) {
            Err(_) => Err(ParseError::TruncatedInput),
            Ok(found) => Ok(found),
        }
    } else {
        match nom_u32(*endian, i) {
            Err(_) => Err(ParseError::TruncatedInput),
            Ok((remainder, count)) => Ok((remainder, count as u64)),
        }
    }
}

/// Resolves the tag identifier and the type of an entry. Where the tag is
/// not recognized the entry is to be skipped for that reason; where the tag
/// is but the type is not, for that one.
pub fn resolve_entry(tag_id: u64, entry_type: Option<EntryType>) -> (r: Result<
    (Tag, EntryType),
    ParseError,
>)
    ensures
        r == spec_resolve_entry(tag_id, entry_type),
{
    match parse_ifd_tag(tag_id) {
        None => Err(ParseError::UnrecognizedTag),
        Some(tag) => match entry_type {
            None => Err(ParseError::UnrecognizedType),
            Some(type_) => Ok((tag, type_)),
        },
    }
}

/// Reads the value field of an entry and classifies it by the packing rule:
/// the bytes of the field where the values fit in it, else the offset that
/// the field spells. The tag plays no part in this.
pub fn parse_entry_data<'a>(
    i: &'a [u8],
    _tag: Tag,
    endian: &ByteOrder,
    type_: &EntryType,
    count: u64,
    big: bool,
) -> (r: Result<(&'a [u8], IfdEntryData<'a>), ParseError>)
    ensures
        parsed_data(r) == spec_parse_entry_data(i@, *endian, *type_, count, big),
{
    if fits_inline(type_, count, big) {
        match nom_take(field_width(big), i) {
            Err(_) => Err(ParseError::TruncatedInput),
            Ok((remainder, bytes)) => Ok((remainder, IfdEntryData::Value(bytes))),
        }
    } else if big {
        match nom_u64(*endian, i) {
            Err(_) => Err(ParseError::TruncatedInput),
            Ok((remainder, position)) => Ok((remainder, IfdEntryData::Reference(position))),
        }
    } else {
        match nom_u32(*endian, i) {
            Err(_) => Err(ParseError::TruncatedInput),
            Ok((remainder, position)) => Ok((remainder, IfdEntryData::Reference(position as u64))),
        }
    }
}

/// Decodes the entry at the start of `i`, in the classic layout or in the
/// Big one.
///
/// The whole window of the entry must be there, and the whole window is
/// consumed, whether or not the entry is recognized. An entry whose tag or
/// type is not recognized gives `None`.
pub fn parse_entry<'a>(i: &'a [u8], endian: &'a ByteOrder, big: bool) -> (r: Result<
    (&'a [u8], Option<IfdEntry<'a>>),
    ParseError,
>)
    ensures
        parsed_entry(r) == spec_parse_entry(i@, *endian, big),
{
    let ghost width = spec_offset_width(big) as int;
    let ghost size = spec_window_size(big) as int;
    let (input, tag_id) = match parse_ifd_id(i, endian) {
        Ok(found) => found,
        Err(e) => { return Err(e); },
    };
    let (input, entry_type) = match parse_entry_type(input, endian) {
        Ok(found) => found,
        Err(e) => { return Err(e); },
    };
    let (input, count) = match parse_entry_count(input, endian, big) {
        Ok(found) => found,
        Err(e) => { return Err(e); },
    };
    proof {
        if i@.len() >= size {
            assert(i@.take(size).subrange(0, 2) =~= i@.take(2));
            assert(i@.take(size).subrange(2, 4) =~= i@.skip(2).take(2));
            assert(i@.take(size).subrange(4, 4 + width) =~= i@.skip(2).skip(2).take(width));
            assert(i@.take(size).subrange(4 + width, 4 + 2 * width) =~= i@.skip(2).skip(2).skip(
                width,
            ).take(width));
            assert(i@.skip(2).skip(2).skip(width).skip(width) =~= i@.skip(size));
        }
    }
    match resolve_entry(tag_id, entry_type) {
        Ok((tag, type_)) => {
            match parse_entry_data(input, tag, endian, &type_, count, big) {
                Err(e) => Err(e),
                Ok((input, data)) => {
                    let result = IfdEntry { tag_id, type_, count, data, endian };
                    Ok((input, Some(result)))
                },
            }
        },
        Err(_) => {
            match nom_take(field_width(big), input) {
                Err(_) => Err(ParseError::TruncatedInput),
                Ok((input, _)) => Ok((input, None)),
            }
        },
    }
}

/// Decodes one entry of a classic directory from a window of 12 bytes.
pub fn parse_ifd_entry<'a>(i: &'a [u8], endian: &'a ByteOrder) -> (r: Result<
    (&'a [u8], Option<IfdEntry<'a>>),
    ParseError,
>)
    ensures
        parsed_entry(r) == spec_parse_entry(i@, *endian, false),
{
    parse_entry(i, endian, false)
}

/// Decodes one entry of a Big directory from a window of 20 bytes.
pub fn parse_big_ifd_entry<'a>(i: &'a [u8], endian: &'a ByteOrder) -> (r: Result<
    (&'a [u8], Option<IfdEntry<'a>>),
    ParseError,
>)
    ensures
        parsed_entry(r) == spec_parse_entry(i@, *endian, true),
{
    parse_entry(i, endian, true)
}

} // verus!
