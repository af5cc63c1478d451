//! The primitive parsers of `nom` that the decoder is built from, each with
//! the contract that the decoder relies on. These contracts are taken on
//! trust from nom's source; everything else in the crate is proved from them.

use crate::byte_order::{uint_value, ByteOrder};
use vstd::prelude::*;
use vstd::string::StringSliceAdditionalSpecFns;

verus! {

/// `nom::Err`, the failure of a nom parser. Only carried, never inspected.
#[verifier::external_type_specification]
#[verifier::external_body]
#[verifier::reject_recursive_types(E)]
pub struct ExNomErr<E>(nom::Err<E>);

/// `nom::error::Error`, nom's default error payload. Only carried, never inspected.
#[verifier::external_type_specification]
#[verifier::external_body]
#[verifier::reject_recursive_types(I)]
pub struct ExNomError<I>(nom::error::Error<I>);

/// `nom::bytes::complete::tag` on a byte slice, with a string pattern.
///
/// Succeeds exactly when the input begins with the UTF-8 bytes of `pattern`;
/// it then hands back the input after the pattern and the matched prefix.
#[verifier::external_body]
pub(crate) fn nom_tag<'a>(pattern: &str, i: &'a [u8]) -> (r: Result<
    (&'a [u8], &'a [u8]),
    nom::Err<nom::error::Error<&'a [u8]>>,
>)
    ensures
        r is Ok <==> pattern.spec_bytes().is_prefix_of(i@),
        r matches Ok((rest, matched)) ==> matched@ == pattern.spec_bytes() && rest@ == i@.skip(
            pattern.spec_bytes().len() as int,
        ),
{
    nom::bytes::complete::tag(pattern)(i)
}

/// `nom::bytes::complete::take` on a byte slice.
///
/// Succeeds exactly when the input holds at least `count` bytes; it then
/// hands back the input after them and the first `count` bytes.
#[verifier::external_body]
pub(crate) fn nom_take<'a>(count: usize, i: &'a [u8]) -> (r: Result<
    (&'a [u8], &'a [u8]),
    nom::Err<nom::error::Error<&'a [u8]>>,
>)
    ensures
        r is Ok <==> count <= i@.len(),
        r matches Ok((rest, taken)) ==> taken@ == i@.take(count as int) && rest@ == i@.skip(
            count as int,
        ),
{
    nom::bytes::complete::take(count)(i)
}

/// `nom::number::complete::u16` on a byte slice.
///
/// Succeeds exactly when the input holds at least two bytes; it then hands
/// back the input after them and the number they spell in the given order.
#[verifier::external_body]
pub(crate) fn nom_u16<'a>(endian: ByteOrder, i: &'a [u8]) -> (r: Result<
    (&'a [u8], u16),
    nom::Err<nom::error::Error<&'a [u8]>>,
>)
    ensures
        r is Ok <==> i@.len() >= 2,
        r matches Ok((rest, v)) ==> rest@ == i@.skip(2) && v as nat == uint_value(
            endian,
            i@.take(2),
        ),
{
    let order = match endian {
        ByteOrder::Little => nom::number::Endianness::Little,
        ByteOrder::Big => nom::number::Endianness::Big,
    };
    nom::number::complete::u16(order)(i)
}

/// `nom::number::complete::u32` on a byte slice.
///
/// Succeeds exactly when the input holds at least four bytes; it then hands
/// back the input after them and the number they spell in the given order.
#[verifier::external_body]
pub(crate) fn nom_u32<'a>(endian: ByteOrder, i: &'a [u8]) -> (r: Result<
    (&'a [u8], u32),
    nom::Err<nom::error::Error<&'a [u8]>>,
>)
    ensures
        r is Ok <==> i@.len() >= 4,
        r matches Ok((rest, v)) ==> rest@ == i@.skip(4) && v as nat == uint_value(
            endian,
            i@.take(4),
        ),
{
    let order = match endian {
        ByteOrder::Little => nom::number::Endianness::Little,
        ByteOrder::Big => nom::number::Endianness::Big,
    };
    nom::number::complete::u32(order)(i)
}

/// `nom::number::complete::u64` on a byte slice.
///
/// Succeeds exactly when the input holds at least eight bytes; it then hands
/// back the input after them and the number they spell in the given order.
#[verifier::external_body]
pub(crate) fn nom_u64<'a>(endian: ByteOrder, i: &'a [u8]) -> (r: Result<
    (&'a [u8], u64),
    nom::Err<nom::error::Error<&'a [u8]>>,
>)
    ensures
        r is Ok <==> i@.len() >= 8,
        r matches Ok((rest, v)) ==> rest@ == i@.skip(8) && v as nat == uint_value(
            endian,
            i@.take(8),
        ),
{
    let order = match endian {
        ByteOrder::Little => nom::number::Endianness::Little,
        ByteOrder::Big => nom::number::Endianness::Big,
    };
    nom::number::complete::u64(order)(i)
}

} // verus!
