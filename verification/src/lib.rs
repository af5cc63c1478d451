//! Decoder for the structural layer of TIFF and BigTIFF files: the byte-order
//! marker, the container header, and the entries of an image file directory.
//!
//! Every function works on a byte slice that the caller has already read and
//! states, over the bytes of that slice, exactly what it returns. Reading the
//! file, and following an entry to the offset where its values are stored,
//! is left to the caller.
//!
//! - [`header`]: the byte order, the container variant and the offset of the
//!   first directory.
//! - [`entry`]: one directory entry, in the classic layout of 12 bytes and in
//!   the Big layout of 20, with the rule that decides whether its values are
//!   held in the entry or stored elsewhere.
//! - [`directory`]: the walk over all entries of a directory.
//! - [`tags`]: the table of standard tags and of the values of some of them.
//! - [`byte_order`]: what a run of bytes spells as a number.
//! - [`error`]: the ways in which decoding fails.

pub mod byte_order;
pub mod directory;
pub mod entry;
pub mod error;
pub mod header;
mod nom_parsers;
pub mod tags;
