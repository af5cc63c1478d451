//! Walking a directory: the count of its entries, then the entries one
//! window after another, each routed by what its value field holds.

use crate::byte_order::ByteOrder;
use crate::entry::{
    byte_width, parse_entry, spec_byte_width, spec_entry, spec_window_size, window_size,
    EntryType, IfdEntry, IfdEntryData, IfdEntryDataView, IfdEntryView,
};
use crate::error::ParseError;
use crate::header::{first_ifd_count, spec_first_ifd_count, TifInfo};
use crate::nom_parsers::nom_take;
use std::collections::BTreeMap;
use vstd::prelude::*;

verus! {

/// An entry whose values are stored elsewhere in the file: the window it
/// was decoded from, with the type and the count that say how many bytes
/// are to be read at the offset that the window holds.
#[derive(Clone, Copy, Debug, PartialEq, Eq)]
pub struct PendingReference<'a> {
    pub window: &'a [u8],
    pub type_: EntryType,
    pub count: u64,
}

/// A `PendingReference` with its bytes as a sequence.
pub struct PendingReferenceView {
    pub window: Seq<u8>,
    pub type_: EntryType,
    pub count: u64,
}

impl<'a> View for PendingReference<'a> {
    type V = PendingReferenceView;

    open spec fn view(&self) -> PendingReferenceView {
        PendingReferenceView { window: self.window@, type_: self.type_, count: self.count }
    }
}

impl<'a> PendingReference<'a> {
    /// The number of bytes that the values of the entry take at its offset:
    /// the count times the width of the type.
    pub open spec fn spec_byte_len(self) -> nat {
        (spec_byte_width(self.type_) * self.count) as nat
    }

    /// The number of bytes to read at the offset of the entry, or `None`
    /// where that number does not fit in 64 bits.
    pub fn byte_len(&self) -> (r: Option<u64>)
        ensures
            self.spec_byte_len() <= u64::MAX ==> r == Some(self.spec_byte_len() as u64),
            self.spec_byte_len() > u64::MAX ==> r is None,
    {
        let width: u64 = byte_width(&self.type_) as u64;
        width.checked_mul(self.count)
    }
}

/// The recognized entries of one directory.
///
/// `ordered` holds all of them in the order of the file. `entries` holds
/// those that store their values in themselves, by tag identifier; of two
/// with the same identifier the later one stays. `references` holds the
/// others, in the order of the file.
#[derive(Debug, PartialEq, Eq)]
pub struct Directory<'a> {
    pub ordered: Vec<IfdEntry<'a>>,
    pub entries: BTreeMap<u64, IfdEntry<'a>>,
    pub references: Vec<PendingReference<'a>>,
}

/// A `Directory` as sequences and a map.
pub struct DirectoryView {
    pub ordered: Seq<IfdEntryView>,
    pub entries: Map<u64, IfdEntryView>,
    pub references: Seq<PendingReferenceView>,
}

impl DirectoryView {
    /// What holds of every directory that routing has filled: each entry
    /// in the map stands under its own tag identifier, holds its values,
    /// and is one of the entries in file order; and there are no more
    /// pending references than entries.
    pub open spec fn well_formed(self) -> bool {
        &&& self.references.len() <= self.ordered.len()
        &&& forall|tag_id: u64| #[trigger]
            self.entries.contains_key(tag_id) ==> {
                &&& self.entries[tag_id].tag_id == tag_id
                &&& self.entries[tag_id].data is Value
                &&& self.ordered.contains(self.entries[tag_id])
            }
    }
}

impl<'a> View for Directory<'a> {
    type V = DirectoryView;

    open spec fn view(&self) -> DirectoryView {
        DirectoryView {
            ordered: self.ordered@.map_values(|entry: IfdEntry<'a>| entry@),
            entries: self.entries@.map_values(|entry: IfdEntry<'a>| entry@),
            references: self.references@.map_values(|pending: PendingReference<'a>| pending@),
        }
    }
}

/// The directory without entries.
pub open spec fn spec_empty() -> DirectoryView {
    DirectoryView { ordered: Seq::empty(), entries: Map::empty(), references: Seq::empty() }
}

/// The directory after the entry of one window has been routed into it.
///
/// An entry that is not recognized changes nothing. A recognized one is
/// appended to the entries in file order; then one that holds its values
/// takes the place under its tag identifier, and one that refers to an
/// offset is appended, with its window, to the pending references.
pub open spec fn spec_route(
    directory: DirectoryView,
    window: Seq<u8>,
    endian: ByteOrder,
    big: bool,
) -> DirectoryView {
    match spec_entry(window, endian, big) {
        None => directory,
        Some(entry) => match entry.data {
            IfdEntryDataView::Value(_) => DirectoryView {
                ordered: directory.ordered.push(entry),
                entries: directory.entries.insert(entry.tag_id, entry),
                references: directory.references,
            },
            IfdEntryDataView::Reference(_) => DirectoryView {
                ordered: directory.ordered.push(entry),
                entries: directory.entries,
                references: directory.references.push(
                    PendingReferenceView { window, type_: entry.type_, count: entry.count },
                ),
            },
        },
    }
}

/// The directory that the first `n` windows of `body` give, routed in the
/// order of the file.
pub open spec fn spec_walk(body: Seq<u8>, endian: ByteOrder, big: bool, n: nat) -> DirectoryView
    decreases n,
{
    if n == 0 {
        spec_empty()
    } else {
        let size = spec_window_size(big) as int;
        spec_route(
            spec_walk(body, endian, big, (n - 1) as nat),
            body.subrange((n - 1) * size, n * size),
            endian,
            big,
        )
    }
}

/// The decoding of a whole directory at the start of `i`: the count, then
/// as many windows as the count says. All of them must be there.
pub open spec fn spec_walk_directory(i: Seq<u8>, info: TifInfo) -> Result<
    (Seq<u8>, DirectoryView),
    ParseError,
> {
    match spec_first_ifd_count(i, info) {
        Err(e) => Err(e),
        Ok((body, count)) => {
            let size = spec_window_size(info.big) as int;
            if body.len() < count * size {
                Err(ParseError::TruncatedInput)
            } else {
                Ok((body.skip(count * size), spec_walk(body, info.endianess, info.big, count as nat)))
            }
        },
    }
}

/// What the walk of a directory returned, with all bytes as sequences.
pub open spec fn parsed_directory(r: Result<(&[u8], Directory), ParseError>) -> Result<
    (Seq<u8>, DirectoryView),
    ParseError,
> {
    match r {
        Ok((rest, directory)) => Ok((rest@, directory@)),
        Err(e) => Err(e),
    }
}

/// Of two entries with the same tag identifier that hold their values, the
/// later one stays: after an entry has been routed it is the one under its
/// identifier and the last in file order, every other identifier keeps what
/// it had, and the pending references are as before.
pub proof fn lemma_last_write_wins(
    directory: DirectoryView,
    window: Seq<u8>,
    endian: ByteOrder,
    big: bool,
)
    requires
        spec_entry(window, endian, big) matches Some(entry) && entry.data is Value,
    ensures
        ({
            let entry = spec_entry(window, endian, big)->Some_0;
            let routed = spec_route(directory, window, endian, big);
            &&& routed.ordered == directory.ordered.push(entry)
            &&& routed.entries.contains_key(entry.tag_id)
            &&& routed.entries[entry.tag_id] == entry
            &&& forall|other: u64|
                other != entry.tag_id ==> (routed.entries.contains_key(other)
                    <==> directory.entries.contains_key(other))
            &&& forall|other: u64|
                other != entry.tag_id && directory.entries.contains_key(other)
                    ==> routed.entries[other] == directory.entries[other]
            &&& routed.references == directory.references
        }),
{
}

/// An entry that refers to an offset is appended to the entries in file
/// order, and to the pending references with its window, its type and its
/// count; the map of entries is as before.
pub proof fn lemma_reference_retained(
    directory: DirectoryView,
    window: Seq<u8>,
    endian: ByteOrder,
    big: bool,
)
    requires
        spec_entry(window, endian, big) matches Some(entry) && entry.data is Reference,
    ensures
        ({
            let entry = spec_entry(window, endian, big)->Some_0;
            let routed = spec_route(directory, window, endian, big);
            &&& routed.ordered == directory.ordered.push(entry)
            &&& routed.entries == directory.entries
            &&& routed.references.len() == directory.references.len() + 1
            &&& routed.references.last() == PendingReferenceView {
                window,
                type_: entry.type_,
                count: entry.count,
            }
            &&& routed.references.drop_last() == directory.references
        }),
{
    let routed = spec_route(directory, window, endian, big);
    assert(routed.references.drop_last() =~= directory.references);
}

/// An entry that is not recognized leaves the directory as it was.
pub proof fn lemma_unrecognized_skipped(
    directory: DirectoryView,
    window: Seq<u8>,
    endian: ByteOrder,
    big: bool,
)
    requires
        spec_entry(window, endian, big) is None,
    ensures
        spec_route(directory, window, endian, big) == directory,
{
}

/// Routing keeps a directory well formed.
pub proof fn lemma_route_well_formed(
    directory: DirectoryView,
    window: Seq<u8>,
    endian: ByteOrder,
    big: bool,
)
    requires
        directory.well_formed(),
    ensures
        spec_route(directory, window, endian, big).well_formed(),
{
    let routed = spec_route(directory, window, endian, big);
    if routed.ordered.len() > directory.ordered.len() {
        let last = routed.ordered.last();
        assert(routed.ordered[routed.ordered.len() - 1] == last);
        assert forall|tag_id: u64| #[trigger]
            routed.entries.contains_key(tag_id) implies routed.ordered.contains(
            routed.entries[tag_id],
        ) by {
            if directory.entries.contains_key(tag_id) && routed.entries[tag_id]
                == directory.entries[tag_id] {
                let at = choose|at: int|
                    0 <= at < directory.ordered.len() && directory.ordered[at]
                        == directory.entries[tag_id];
                assert(routed.ordered[at] == directory.entries[tag_id]);
            }
        }
    }
}

/// The directory of a walk over `n` windows is well formed and holds at
/// most `n` entries.
pub proof fn lemma_walk_well_formed(body: Seq<u8>, endian: ByteOrder, big: bool, n: nat)
    ensures
        spec_walk(body, endian, big, n).well_formed(),
        spec_walk(body, endian, big, n).ordered.len() <= n,
    decreases n,
{
    if n > 0 {
        let size = spec_window_size(big) as int;
        lemma_walk_well_formed(body, endian, big, (n - 1) as nat);
        lemma_route_well_formed(
            spec_walk(body, endian, big, (n - 1) as nat),
            body.subrange((n - 1) * size, n * size),
            endian,
            big,
        );
    }
}

/// The keys of the map of entries are ordered as the integers are.
proof fn lemma_keys_ordered()
    ensures
        vstd::laws_cmp::obeys_cmp::<u64>(),
{
    broadcast use vstd::laws_cmp::group_laws_cmp;

}

impl<'a> Directory<'a> {
    /// The directory without entries.
    pub fn new() -> (directory: Directory<'a>)
        ensures
            directory@ == spec_empty(),
            directory@.well_formed(),
    {
        let directory = Directory {
            ordered: Vec::new(),
            entries: BTreeMap::new(),
            references: Vec::new(),
        };
        assert(directory@.ordered =~= Seq::empty());
        assert(directory@.entries =~= Map::empty());
        assert(directory@.references =~= Seq::empty());
        directory
    }

    /// Decodes the entry at the start of `window` and routes it: into the
    /// map of entries where it holds its values, to the pending references
    /// where it refers to an offset, nowhere where it is not recognized.
    ///
    /// A window that is too short for an entry is refused, and the
    /// directory stays as it was. What follows the entry in `window` is
    /// handed back.
    pub fn route(&mut self, window: &'a [u8], endian: &'a ByteOrder, big: bool) -> (r: Result<
        &'a [u8],
        ParseError,
    >)
        ensures
            window@.len() < spec_window_size(big) ==> r == Err::<&[u8], ParseError>(
                ParseError::TruncatedInput,
            ) && *final(self) == *old(self),
            window@.len() >= spec_window_size(big) ==> r is Ok && r->Ok_0@ == window@.skip(
                spec_window_size(big) as int,
            ) && final(self)@ == spec_route(
                old(self)@,
                window@.take(spec_window_size(big) as int),
                *endian,
                big,
            ),
            old(self)@.well_formed() ==> final(self)@.well_formed(),
    {
        proof {
            if self@.well_formed() {
                lemma_route_well_formed(
                    self@,
                    window@.take(spec_window_size(big) as int),
                    *endian,
                    big,
                );
            }
        }
        let size: usize = window_size(big);
        let (rest, slot) = match nom_take(size, window) {
            Ok(found) => found,
            Err(_) => { return Err(ParseError::TruncatedInput); },
        };
        let decoded = match parse_entry(slot, endian, big) {
            Ok((_, decoded)) => decoded,
            Err(e) => { return Err(e); },
        };
        assert(slot@.take(size as int) =~= slot@);
        let ghost before = self@;
        match decoded {
            None => {},
            Some(entry) => {
                self.ordered.push(entry);
                assert(self@.ordered =~= before.ordered.push(entry@));
                match entry.data {
                    IfdEntryData::Value(_) => {
                        proof {
                            lemma_keys_ordered();
                        }
                        self.entries.insert(entry.tag_id, entry);
                        assert(self@.entries =~= before.entries.insert(entry.tag_id, entry@));
                    },
                    IfdEntryData::Reference(_) => {
                        self.references.push(
                            PendingReference {
                                window: slot,
                                type_: entry.type_,
                                count: entry.count,
                            },
                        );
                        assert(self@.references =~= before.references.push(
                            PendingReferenceView {
                                window: slot@,
                                type_: entry.type_,
                                count: entry.count,
                            },
                        ));
                    },
                }
            },
        }
        Ok(rest)
    }
}

/// Decodes the directory at the start of `i`: reads the count of entries,
/// then decodes and routes that many windows in the order of the file.
///
/// `i` starts at the directory's first byte. Entries that are not
/// recognized are skipped; a directory that ends before its last window is
/// refused as a whole.
pub fn walk_directory<'a>(i: &'a [u8], info: &'a TifInfo) -> (r: Result<
    (&'a [u8], Directory<'a>),
    ParseError,
>)
    ensures
        parsed_directory(r) == spec_walk_directory(i@, *info),
        r matches Ok((_, directory)) ==> directory@.well_formed(),
{
    let (body, count) = match first_ifd_count(i, info) {
        Ok(found) => found,
        Err(e) => { return Err(e); },
    };
    let ghost size = spec_window_size(info.big) as int;
    let mut directory = Directory::new();
    let mut rest = body;
    let mut done: u64 = 0;
    while done < count
        invariant
            spec_first_ifd_count(i@, *info) == Ok::<(Seq<u8>, u64), ParseError>((body@, count)),
            done <= count,
            size == spec_window_size(info.big),
            done * size <= body@.len(),
            rest@ == body@.skip(done * size),
            directory@ == spec_walk(body@, info.endianess, info.big, done as nat),
            directory@.well_formed(),
        decreases count - done,
    {
        assert((done + 1) * size == done * size + size) by (nonlinear_arith);
        match directory.route(rest, &info.endianess, info.big) {
            Err(e) => {
                assert((done + 1) * size <= count * size) by (nonlinear_arith)
                    requires
                        done + 1 <= count,
                        size >= 0,
                ;
                return Err(e);
            },
            Ok(after) => {
                assert(rest@.take(size) =~= body@.subrange(
                    done * size,
                    (done + 1) * size,
                ));
                assert(rest@.skip(size) =~= body@.skip((done + 1) * size));
                rest = after;
                done = done + 1;
            },
        }
    }
    Ok((rest, directory))
}

} // verus!
