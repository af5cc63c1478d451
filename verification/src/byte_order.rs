use vstd::prelude::*;

verus! {

/// The order in which the bytes of a multi-byte integer are stored.
#[derive(Clone, Copy, Debug, PartialEq, Eq, Structural)]
pub enum ByteOrder {
    /// Least significant byte first (`II`).
    Little,
    /// Most significant byte first (`MM`).
    Big,
}

/// The number that `bytes` spell with the least significant byte first.
pub open spec fn le_value(bytes: Seq<u8>) -> nat
    decreases bytes.len(),
{
    if bytes.len() == 0 {
        0
    } else {
        bytes[0] as nat + 256 * le_value(bytes.skip(1))
    }
}

/// The number that `bytes` spell with the most significant byte first.
pub open spec fn be_value(bytes: Seq<u8>) -> nat
    decreases bytes.len(),
{
    if bytes.len() == 0 {
        0
    } else {
        256 * be_value(bytes.drop_last()) + bytes.last() as nat
    }
}

/// The unsigned integer that `bytes` spell in the given byte order.
pub open spec fn uint_value(order: ByteOrder, bytes: Seq<u8>) -> nat {
    match order {
        ByteOrder::Little => le_value(bytes),
        ByteOrder::Big => be_value(bytes),
    }
}

/// The number of values that `width` bytes can spell: 256 to the power `width`.
pub open spec fn capacity(width: nat) -> nat
    decreases width,
{
    if width == 0 {
        1
    } else {
        256 * capacity((width - 1) as nat)
    }
}

/// The `width` bytes that spell `value` with the least significant byte first.
pub open spec fn le_bytes(value: nat, width: nat) -> Seq<u8>
    decreases width,
{
    if width == 0 {
        Seq::empty()
    } else {
        seq![(value % 256) as u8] + le_bytes(value / 256, (width - 1) as nat)
    }
}

/// The `width` bytes that spell `value` with the most significant byte first.
pub open spec fn be_bytes(value: nat, width: nat) -> Seq<u8>
    decreases width,
{
    if width == 0 {
        Seq::empty()
    } else {
        be_bytes(value / 256, (width - 1) as nat).push((value % 256) as u8)
    }
}

/// The `width` bytes that spell `value` in the given byte order.
pub open spec fn uint_bytes(order: ByteOrder, value: nat, width: nat) -> Seq<u8> {
    match order {
        ByteOrder::Little => le_bytes(value, width),
        ByteOrder::Big => be_bytes(value, width),
    }
}

/// A number spelled in `width` bytes takes `width` bytes.
pub proof fn lemma_uint_bytes_len(order: ByteOrder, value: nat, width: nat)
    ensures
        uint_bytes(order, value, width).len() == width,
    decreases width,
{
    if width > 0 {
        lemma_uint_bytes_len(order, value / 256, (width - 1) as nat);
    }
}

/// The number that bytes spell is below the capacity of their width: two
/// bytes spell a number below 65536, eight bytes one that fits in 64 bits.
pub proof fn lemma_uint_value_bound(order: ByteOrder, bytes: Seq<u8>)
    ensures
        uint_value(order, bytes) < capacity(bytes.len()),
    decreases bytes.len(),
{
    if bytes.len() > 0 {
        lemma_uint_value_bound(order, bytes.skip(1));
        lemma_uint_value_bound(order, bytes.drop_last());
    }
}

/// Spelling a number in `width` bytes and reading the bytes in the same
/// order gives the number back, for every number that `width` bytes can hold.
pub proof fn lemma_uint_round_trip(order: ByteOrder, value: nat, width: nat)
    requires
        value < capacity(width),
    ensures
        uint_value(order, uint_bytes(order, value, width)) == value,
    decreases width,
{
    if width > 0 {
        let rest = (width - 1) as nat;
        lemma_uint_round_trip(order, value / 256, rest);
        match order {
            ByteOrder::Little => {
                let bytes = le_bytes(value, width);
                assert(bytes.skip(1) =~= le_bytes(value / 256, rest));
            },
            ByteOrder::Big => {
                let bytes = be_bytes(value, width);
                assert(bytes.drop_last() =~= be_bytes(value / 256, rest));
            },
        }
    }
}

/// The capacities of the widths that the format uses.
pub proof fn lemma_capacities()
    ensures
        capacity(2) == 0x1_0000,
        capacity(4) == 0x1_0000_0000,
        capacity(8) == 0x1_0000_0000_0000_0000,
{
    reveal_with_fuel(capacity, 9);
}

} // verus!
