use vstd::prelude::*;

verus! {

/// The ways in which decoding can fail.
///
/// The first four abort the decode of a file. The last two concern a single
/// directory entry, which is then skipped.
#[derive(Clone, Copy, Debug, PartialEq, Eq, Structural)]
pub enum ParseError {
    /// The first two bytes are neither `II` nor `MM`.
    InvalidByteOrderMarker,
    /// The format version is neither 42 nor 43.
    InvalidMagicNumber,
    /// A BigTIFF header whose offset size is not 8 or whose reserved field is not 0.
    MalformedBigHeader,
    /// Fewer bytes are available than a field requires.
    TruncatedInput,
    /// The tag identifier of an entry is not in the tag table.
    UnrecognizedTag,
    /// The type code of an entry is not one of the twelve field types.
    UnrecognizedType,
}

/// What a parser returned, with the remaining input taken as a sequence of
/// bytes: the form in which the contracts speak of it.
pub open spec fn parsed<T>(r: Result<(&[u8], T), ParseError>) -> Result<(Seq<u8>, T), ParseError> {
    match r {
        Ok((rest, value)) => Ok((rest@, value)),
        Err(e) => Err(e),
    }
}

} // verus!
