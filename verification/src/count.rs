//! Signed counts held in the bit fields of a frame.
//!
//! Each temperature travels as a bit field at the top of a 16-bit word. The field
//! is a two's complement number: its highest bit is the sign. `Reading` knows where
//! the field of each temperature lies, `bits_to_i16` extends the sign, and
//! `Reading::decode` does both for a whole word.

use crate::bits::{get_bit_u16, get_bits_u16, u16_bit, u16_bits};
use vstd::prelude::*;

verus! {

/// Possible MAX31855 readings
#[derive(Clone, Copy, Debug, PartialEq, Eq)]
pub enum Reading {
    /// The attached thermocouple
    Thermocouple,
    /// The internal reference junction
    Internal,
}

impl Reading {
    /// Index, within its 16-bit word, of the lowest bit of the field. The field
    /// reaches from there up to bit 15 of the word.
    pub open spec fn spec_first_bit(self) -> usize {
        match self {
            Reading::Thermocouple => 2,
            Reading::Internal => 4,
        }
    }

    /// Number of bits of the field; the highest of them is the sign.
    pub open spec fn spec_width(self) -> usize {
        match self {
            Reading::Thermocouple => 14,
            Reading::Internal => 12,
        }
    }

    /// Weight of the lowest bit of the field within its word: two to the power of
    /// `spec_first_bit`.
    pub open spec fn spec_divisor(self) -> i16 {
        match self {
            Reading::Thermocouple => 4,
            Reading::Internal => 16,
        }
    }

    /// Number of values that the field can take: two to the power of `spec_width`.
    pub open spec fn modulus(self) -> int {
        match self {
            Reading::Thermocouple => 0x4000,
            Reading::Internal => 0x1000,
        }
    }

    /// The value of the field of this kind inside `word`: the word divided by the
    /// weight of the field's lowest bit.
    pub open spec fn field(self, word: int) -> int {
        match self {
            Reading::Thermocouple => word / 4,
            Reading::Internal => word / 16,
        }
    }

    /// The count that a field value stands for: the field read as a two's complement
    /// number of `spec_width` bits. A field below half the modulus is the count; one
    /// from there on has the sign bit set and stands for itself less the modulus.
    pub open spec fn count(self, field: int) -> int {
        if 2 * field < self.modulus() {
            field
        } else {
            field - self.modulus()
        }
    }

    /// Whether `count` can be held in a field of this kind.
    pub open spec fn holds(self, count: int) -> bool {
        -self.modulus() <= 2 * count < self.modulus()
    }

    /// The field value that stands for `count`.
    pub open spec fn field_for(self, count: int) -> int {
        if count >= 0 {
            count
        } else {
            count + self.modulus()
        }
    }

    /// The 16-bit word whose field of this kind stands for `count` and whose other
    /// bits are clear.
    pub open spec fn word_for(self, count: int) -> int {
        match self {
            Reading::Thermocouple => self.field_for(count) * 4,
            Reading::Internal => self.field_for(count) * 16,
        }
    }

    /// Index of the lowest bit of the field within its word: 2 for the
    /// thermocouple, 4 for the reference junction.
    #[verifier::when_used_as_spec(spec_first_bit)]
    pub fn first_bit(self) -> (bit: usize)
        ensures
            bit == self.spec_first_bit(),
    {
        match self {
            Reading::Thermocouple => 2,
            Reading::Internal => 4,
        }
    }

    /// Number of bits of the field, sign included: 14 for the thermocouple, 12 for
    /// the reference junction.
    #[verifier::when_used_as_spec(spec_width)]
    pub fn width(self) -> (bits: usize)
        ensures
            bits == self.spec_width(),
    {
        match self {
            Reading::Thermocouple => 14,
            Reading::Internal => 12,
        }
    }

    /// Weight of the lowest bit of the field within its word: 4 for the
    /// thermocouple, 16 for the reference junction.
    #[verifier::when_used_as_spec(spec_divisor)]
    pub fn divisor(self) -> (divisor: i16)
        ensures
            divisor == self.spec_divisor(),
    {
        match self {
            Reading::Thermocouple => 4,
            Reading::Internal => 16,
        }
    }

    /// Reads the count of this kind out of the 16-bit word that holds its field.
    /// The bits of the word below the field do not count.
    pub fn decode(self, word: u16) -> (count: i16)
        ensures
            count == self.count(self.field(word as int)),
            self.holds(count as int),
    {
        let field = get_bits_u16(word, self.first_bit(), 15);
        proof {
            lemma_field_of_word(self, word);
            if 2 * field < self.modulus() {
                lemma_field_without_sign(self, field);
            } else {
                lemma_field_with_sign(self, field);
            }
        }
        bits_to_i16(field, self.width(), self.divisor(), self.first_bit())
    }
}

/// The quotient of `n` by `d` rounded toward zero, which is what `/` computes on
/// machine integers.
pub open spec fn quotient_toward_zero(n: int, d: int) -> int {
    if n >= 0 {
        n / d
    } else {
        -((-n) / d)
    }
}

/// What `bits_to_i16` returns. Where bit `len - 1` of `bits` is clear: `bits` itself,
/// read as a signed word. Where it is set: `bits` moved up by `shift`, read as a
/// signed word and divided by `divisor`.
pub open spec fn spec_bits_to_i16(bits: u16, len: usize, divisor: i16, shift: usize) -> int {
    if u16_bit(bits, (len - 1) as usize) {
        quotient_toward_zero(((bits << shift) as i16) as int, divisor as int)
    } else {
        (bits as i16) as int
    }
}

/// Whether `bits_to_i16` can compute its result on these arguments: the sign bit
/// lies in the word and, where it is set, the shift stays inside the word and the
/// division is defined and does not overflow.
pub open spec fn bits_to_i16_defined(bits: u16, len: usize, divisor: i16, shift: usize) -> bool {
    &&& 1 <= len <= 16
    &&& u16_bit(bits, (len - 1) as usize) ==> {
        &&& shift < 16
        &&& divisor != 0
        &&& !(divisor == -1 && (bits << shift) as i16 == i16::MIN)
    }
}

/// Turns a bit field of `len` bits, whose highest bit is the sign, into a signed
/// count. A field without the sign bit is the count. A field with it is moved up by
/// `shift` bits, so that its sign bit becomes the sign bit of the word, and then
/// divided by `divisor`.
pub fn bits_to_i16(bits: u16, len: usize, divisor: i16, shift: usize) -> (count: i16)
    requires
        bits_to_i16_defined(bits, len, divisor, shift),
    ensures
        count == spec_bits_to_i16(bits, len, divisor, shift),
{
    let negative = get_bit_u16(bits, len - 1);
    if negative {
        let shifted = (bits << shift) as i16;
        proof {
            if shifted >= 0 {
                lemma_quotient_bounds(shifted as int, divisor as int);
            } else {
                lemma_quotient_bounds(-(shifted as int), divisor as int);
            }
        }
        shifted / divisor
    } else {
        bits as i16
    }
}

/// A field of a reading's own layout whose sign bit is clear decodes to its own
/// value, read as an unsigned number.
pub proof fn lemma_field_without_sign(kind: Reading, field: u16)
    requires
        2 * field < kind.modulus(),
    ensures
        bits_to_i16_defined(field, kind.spec_width(), kind.spec_divisor(), kind.spec_first_bit()),
        spec_bits_to_i16(field, kind.spec_width(), kind.spec_divisor(), kind.spec_first_bit())
            == field,
{
    match kind {
        Reading::Thermocouple => {
            assert(field < 0x2000 ==> !u16_bit(field, 13) && (field as i16) == field)
                by (bit_vector);
        },
        Reading::Internal => {
            assert(field < 0x800 ==> !u16_bit(field, 11) && (field as i16) == field)
                by (bit_vector);
        },
    }
}

/// A field of a reading's own layout whose sign bit is set decodes to the negative
/// number that its bits are in two's complement: its unsigned value less the
/// modulus.
pub proof fn lemma_field_with_sign(kind: Reading, field: u16)
    requires
        kind.modulus() <= 2 * field < 2 * kind.modulus(),
    ensures
        bits_to_i16_defined(field, kind.spec_width(), kind.spec_divisor(), kind.spec_first_bit()),
        spec_bits_to_i16(field, kind.spec_width(), kind.spec_divisor(), kind.spec_first_bit())
            == field - kind.modulus(),
        spec_bits_to_i16(field, kind.spec_width(), kind.spec_divisor(), kind.spec_first_bit())
            < 0,
{
    match kind {
        Reading::Thermocouple => {
            assert(0x2000 <= field < 0x4000 ==> u16_bit(field, 13) && ((field << 2usize) as i16)
                == 4 * field - 0x10000) by (bit_vector);
        },
        Reading::Internal => {
            assert(0x800 <= field < 0x1000 ==> u16_bit(field, 11) && ((field << 4usize) as i16)
                == 16 * field - 0x10000) by (bit_vector);
        },
    }
}

/// Every count that a field can hold comes back from the field that stands for it.
pub proof fn lemma_count_round_trip(kind: Reading, count: int)
    requires
        kind.holds(count),
    ensures
        0 <= kind.field_for(count) < kind.modulus(),
        kind.count(kind.field_for(count)) == count,
        0 <= kind.word_for(count) < 0x10000,
        kind.field(kind.word_for(count)) == kind.field_for(count),
        kind.word_for(count) % 2 == 0,
{
}

/// Every field value comes back from the count that it stands for.
pub proof fn lemma_field_round_trip(kind: Reading, field: int)
    requires
        0 <= field < kind.modulus(),
    ensures
        kind.holds(kind.count(field)),
        kind.field_for(kind.count(field)) == field,
{
}

/// The field that `get_bits` cuts out of a word is the word divided by the weight of
/// the field's lowest bit, and fits the field's width.
proof fn lemma_field_of_word(kind: Reading, word: u16)
    ensures
        u16_bits(word, kind.spec_first_bit(), 15) == kind.field(word as int),
        0 <= kind.field(word as int) < kind.modulus(),
{
    assert(u16_bits(word, 2, 15) == word / 4 && word / 4 < 0x4000) by (bit_vector);
    assert(u16_bits(word, 4, 15) == word / 16 && word / 16 < 0x1000) by (bit_vector);
}

/// A quotient is no larger in size than what was divided, and reaches its negative
/// only where the divisor is -1.
proof fn lemma_quotient_bounds(n: int, d: int)
    requires
        n >= 0,
        d != 0,
    ensures
        -n <= n / d <= n,
        n > 0 && d != -1 ==> -n < n / d,
{
    vstd::arithmetic::div_mod::lemma_fundamental_div_mod(n, d);
    if d > 0 {
        assert(0 <= n / d <= n) by (nonlinear_arith)
            requires
                n >= 0,
                d > 0,
                n == d * (n / d) + n % d,
                0 <= n % d < d,
        ;
    } else {
        assert(-n <= n / d <= n && (n > 0 && d != -1 ==> -n < n / d)) by (nonlinear_arith)
            requires
                n >= 0,
                d < 0,
                n == d * (n / d) + n % d,
                0 <= n % d < -d,
        ;
    }
}

} // verus!
