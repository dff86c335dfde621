//! Single bits and bit ranges of bytes and words, read with the `bit_field` crate.

use bit_field::BitField;
use vstd::prelude::*;

verus! {

/// Whether bit `bit` of `value` is set; bit 0 is the least significant one.
pub open spec fn u8_bit(value: u8, bit: usize) -> bool {
    value & (1u8 << bit) != 0
}

/// Whether bit `bit` of `value` is set; bit 0 is the least significant one.
pub open spec fn u16_bit(value: u16, bit: usize) -> bool {
    value & (1u16 << bit) != 0
}

/// Bits `first..=last` of `value`, moved down so that bit `first` becomes bit 0.
pub open spec fn u16_bits(value: u16, first: usize, last: usize) -> u16 {
    if first > last {
        0
    } else {
        ((value << ((15 - last) as usize)) >> ((15 - last) as usize)) >> first
    }
}

/// Calls `get_bit` of `bit_field::BitField` on a `u8`. The contract is trusted: it
/// repeats the expression that the crate evaluates, and leaves out the indices on
/// which the crate panics.
#[verifier::external_body]
pub(crate) fn get_bit_u8(value: u8, bit: usize) -> (set: bool)
    requires
        bit < 8,
    ensures
        set == u8_bit(value, bit),
{
    value.get_bit(bit)
}

/// Calls `get_bit` of `bit_field::BitField` on a `u16`. The contract is trusted: it
/// repeats the expression that the crate evaluates, and leaves out the indices on
/// which the crate panics.
#[verifier::external_body]
pub(crate) fn get_bit_u16(value: u16, bit: usize) -> (set: bool)
    requires
        bit < 16,
    ensures
        set == u16_bit(value, bit),
{
    value.get_bit(bit)
}

/// Calls `get_bits` of `bit_field::BitField` on a `u16` with the inclusive range
/// `first..=last`. The contract is trusted: the crate shifts the bits above `last`
/// out at the top and then the bits below `first` out at the bottom, gives 0 for an
/// empty range, and panics on a range that leaves the word.
#[verifier::external_body]
pub(crate) fn get_bits_u16(value: u16, first: usize, last: usize) -> (field: u16)
    requires
        first <= last + 1,
        last < 16,
        first < 16,
    ensures
        field == u16_bits(value, first, last),
{
    value.get_bits(first..=last)
}

} // verus!
