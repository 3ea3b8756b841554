//! The mathematical model of the emulated NOR-flash device: what counts as a
//! valid geometry, what an aligned and in-bounds range is, and how erase and
//! write transform the device contents.

use vstd::prelude::*;

verus! {

/// The value every byte of an erased region holds: all bits set.
pub const ERASED_BYTE: u8 = 0xFF;

/// A positive power of two: 1, 2, 4, 8, ...
pub open spec fn is_power_of_two(n: int) -> bool
    decreases n,
{
    if n < 1 {
        false
    } else if n == 1 {
        true
    } else {
        n % 2 == 0 && is_power_of_two(n / 2)
    }
}

/// The construction-time rules of the device: each unit size is a power of
/// two, the capacity is a whole number of erase units, and every byte is
/// addressable through the device's 32-bit offsets.
pub open spec fn valid_geometry(read_unit: int, write_unit: int, erase_unit: int, cap: int) -> bool {
    &&& is_power_of_two(read_unit)
    &&& is_power_of_two(write_unit)
    &&& is_power_of_two(erase_unit)
    &&& cap % erase_unit == 0
    &&& cap <= u32::MAX
}

/// An operation's range `[offset, offset + len)` is aligned to `unit` at both
/// ends and lies within a device of `cap` bytes.
pub open spec fn valid_range(offset: int, len: int, unit: int, cap: int) -> bool {
    &&& offset % unit == 0
    &&& len % unit == 0
    &&& offset + len <= cap
}

/// An erase request `[from, to)` is well-formed: ordered, aligned to the
/// erase unit at both ends, and within the device.
pub open spec fn valid_erase(from: int, to: int, erase_unit: int, cap: int) -> bool {
    &&& from <= to
    &&& from % erase_unit == 0
    &&& to % erase_unit == 0
    &&& to <= cap
}

/// Every byte of `s` in `[offset, offset + len)` holds the erased value.
pub open spec fn range_erased(s: Seq<u8>, offset: int, len: int) -> bool {
    forall|i: int| offset <= i < offset + len ==> s[i] == ERASED_BYTE
}

/// The contents after erasing `[from, to)`: those bytes become the erased
/// value, all others keep their value.
pub open spec fn erase_range(s: Seq<u8>, from: int, to: int) -> Seq<u8> {
    Seq::new(s.len(), |i: int| if from <= i < to { ERASED_BYTE } else { s[i] })
}

/// The contents after placing `b` at `offset`: bytes of the target range are
/// taken from `b`, all others keep their value.
pub open spec fn overlay(s: Seq<u8>, offset: int, b: Seq<u8>) -> Seq<u8> {
    Seq::new(s.len(), |i: int| if offset <= i < offset + b.len() { b[i - offset] } else { s[i] })
}

} // verus!
