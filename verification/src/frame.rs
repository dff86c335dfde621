//! The two frames of the converter: the short one of two bytes and the full one of
//! four.
//!
//! A frame is made of 16-bit words, each sent high byte first. The short frame is
//! one word: the thermocouple field in bits 2 to 15 and the fault flag in bit 0.
//! The full frame is two words: the first holds the thermocouple field in bits 2 to
//! 15; the second holds the field of the reference junction in bits 4 to 15, the
//! fault flag in bit 0 and the three bits that name the fault in bits 0 to 2. A
//! frame whose fault flag is set gives a fault and never a count.

use crate::bits::{get_bit_u16, get_bit_u8, u16_bit, u8_bit};
use crate::count::{lemma_count_round_trip, Reading};
use crate::error::{fault_of, resolve_fault, Error, FAULT_BIT};
use vstd::prelude::*;

verus! {

/// Represents the data contained in a full 32-bit read from the MAX31855 as raw ADC counts
#[derive(Clone, Copy, Debug, PartialEq, Eq)]
pub struct FullResultRaw {
    /// The temperature of the thermocouple as raw ADC counts
    pub thermocouple: i16,
    /// The temperature of the MAX31855 reference junction as raw ADC counts
    pub internal: i16,
}

impl View for FullResultRaw {
    type V = (int, int);

    /// The two counts as numbers: the thermocouple first, the reference junction
    /// second.
    open spec fn view(&self) -> (int, int) {
        (self.thermocouple as int, self.internal as int)
    }
}

/// The 16-bit word that two bytes form, the high one first.
pub open spec fn word(high: u8, low: u8) -> int {
    high as int * 256 + low as int
}

/// The two bytes that a 16-bit word is sent as, the high one first.
pub open spec fn bytes_of(word: int) -> Seq<u8>
    recommends
        0 <= word < 0x10000,
{
    seq![(word / 256) as u8, (word % 256) as u8]
}

/// Whether the lowest bit of a word, the fault flag, is set.
pub open spec fn fault_flag(word: int) -> bool {
    word % 2 == 1
}

/// What a short frame holds: the fault without a name where the fault flag of its
/// word is set, else the count of the thermocouple.
pub open spec fn short_frame_reading<S, C>(frame: Seq<u8>) -> Result<int, Error<S, C>>
    recommends
        frame.len() == 2,
{
    let raw = word(frame[0], frame[1]);
    if fault_flag(raw) {
        Err(Error::Fault)
    } else {
        Ok(Reading::Thermocouple.count(Reading::Thermocouple.field(raw)))
    }
}

/// What a full frame holds: the fault that its second word names where the fault
/// flag of that word is set, else the counts of the thermocouple, from the first
/// word, and of the reference junction, from the second.
pub open spec fn full_frame_reading<S, C>(frame: Seq<u8>) -> Result<(int, int), Error<S, C>>
    recommends
        frame.len() == 4,
{
    let first = word(frame[0], frame[1]);
    let second = word(frame[2], frame[3]);
    if fault_flag(second) {
        Err(fault_of(second))
    } else {
        Ok(
            (
                Reading::Thermocouple.count(Reading::Thermocouple.field(first)),
                Reading::Internal.count(Reading::Internal.field(second)),
            ),
        )
    }
}

/// The short frame that reports the thermocouple count `count` and no fault.
pub open spec fn short_frame(count: int) -> Seq<u8>
    recommends
        Reading::Thermocouple.holds(count),
{
    bytes_of(Reading::Thermocouple.word_for(count))
}

/// The full frame that reports the two counts and no fault.
pub open spec fn full_frame(thermocouple: int, internal: int) -> Seq<u8>
    recommends
        Reading::Thermocouple.holds(thermocouple),
        Reading::Internal.holds(internal),
{
    bytes_of(Reading::Thermocouple.word_for(thermocouple)) + bytes_of(
        Reading::Internal.word_for(internal),
    )
}

/// Puts two bytes together to a 16-bit word, the high one first.
fn be_word(high: u8, low: u8) -> (raw: u16)
    ensures
        raw == word(high, low),
{
    proof {
        assert((high as u16) << 8 | (low as u16) == high * 256 + low) by (bit_vector);
    }
    (high as u16) << 8 | (low as u16)
}

/// Decodes a short frame: the thermocouple temperature as a raw ADC count. Sees that
/// there is a fault but not what kind of fault it is.
pub fn read_thermocouple_raw<S, C>(buffer: [u8; 2]) -> (reading: Result<i16, Error<S, C>>)
    ensures
        match reading {
            Ok(count) => short_frame_reading::<S, C>(buffer@) == Ok::<int, Error<S, C>>(
                count as int,
            ),
            Err(fault) => short_frame_reading::<S, C>(buffer@) == Err::<int, Error<S, C>>(fault),
        },
{
    let low = buffer[1];
    proof {
        let high = buffer[0];
        assert(u8_bit(low, 0) == ((high * 256 + low) % 2 == 1)) by (bit_vector);
    }
    if get_bit_u8(low, FAULT_BIT) {
        return Err(Error::Fault);
    }
    let raw = be_word(buffer[0], buffer[1]);
    let thermocouple = Reading::Thermocouple.decode(raw);
    Ok(thermocouple)
}

/// Decodes a full frame: the thermocouple and the internal temperatures as raw ADC
/// counts, or the fault that the converter reported, resolved to one of missing
/// thermocouple, short to ground or short to vcc.
pub fn read_all_raw<S, C>(buffer: [u8; 4]) -> (reading: Result<FullResultRaw, Error<S, C>>)
    ensures
        match reading {
            Ok(raw) => full_frame_reading::<S, C>(buffer@) == Ok::<(int, int), Error<S, C>>(raw@),
            Err(fault) => full_frame_reading::<S, C>(buffer@) == Err::<(int, int), Error<S, C>>(
                fault,
            ),
        },
{
    let first_u16 = be_word(buffer[0], buffer[1]);
    let second_u16 = be_word(buffer[2], buffer[3]);
    proof {
        assert(u16_bit(second_u16, 0) == (second_u16 % 2 == 1)) by (bit_vector);
    }
    if get_bit_u16(second_u16, FAULT_BIT) {
        return Err(resolve_fault(second_u16));
    }
    let thermocouple = Reading::Thermocouple.decode(first_u16);
    let internal = Reading::Internal.decode(second_u16);
    Ok(FullResultRaw { thermocouple, internal })
}

/// A word comes back from the two bytes that it is sent as.
pub proof fn lemma_word_of_bytes(raw: int)
    requires
        0 <= raw < 0x10000,
    ensures
        bytes_of(raw).len() == 2,
        word(bytes_of(raw)[0], bytes_of(raw)[1]) == raw,
{
}

/// A thermocouple count that is put into a short frame comes back from it.
pub proof fn lemma_short_frame_round_trip<S, C>(count: int)
    requires
        Reading::Thermocouple.holds(count),
    ensures
        short_frame(count).len() == 2,
        short_frame_reading::<S, C>(short_frame(count)) == Ok::<int, Error<S, C>>(count),
{
    lemma_count_round_trip(Reading::Thermocouple, count);
    lemma_word_of_bytes(Reading::Thermocouple.word_for(count));
}

/// Two counts that are put into a full frame come back from it.
pub proof fn lemma_full_frame_round_trip<S, C>(thermocouple: int, internal: int)
    requires
        Reading::Thermocouple.holds(thermocouple),
        Reading::Internal.holds(internal),
    ensures
        full_frame(thermocouple, internal).len() == 4,
        full_frame_reading::<S, C>(full_frame(thermocouple, internal)) == Ok::<
            (int, int),
            Error<S, C>,
        >((thermocouple, internal)),
{
    lemma_count_round_trip(Reading::Thermocouple, thermocouple);
    lemma_count_round_trip(Reading::Internal, internal);
    lemma_word_of_bytes(Reading::Thermocouple.word_for(thermocouple));
    lemma_word_of_bytes(Reading::Internal.word_for(internal));
}

/// A frame gives either counts or one fault that the converter reported, never an
/// error of the bus or of the pin.
pub proof fn lemma_frames_report_faults_only<S, C>(frame: Seq<u8>)
    ensures
        short_frame_reading::<S, C>(frame) matches Err(fault) ==> fault == Error::<S, C>::Fault,
        full_frame_reading::<S, C>(frame) matches Err(fault) ==> fault.is_fault(),
{
}

/// A full frame whose fault flag and three fault bits are all set reports the
/// missing thermocouple, and neither of the two shorts.
pub proof fn lemma_full_frame_fault_priority<S, C>(frame: Seq<u8>)
    requires
        frame.len() == 4,
        word(frame[2], frame[3]) % 8 == 7,
    ensures
        full_frame_reading::<S, C>(frame) == Err::<(int, int), Error<S, C>>(
            Error::MissingThermocoupleFault,
        ),
{
}

} // verus!
