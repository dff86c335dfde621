//! The errors of a read, and the faults that the converter reports about itself.

use crate::bits::{get_bit_u16, u16_bit};
use vstd::prelude::*;

verus! {

/// The bit that indicates some kind of fault in the word that carries it
pub const FAULT_BIT: usize = 0;

/// The bit that indicates a short-to-vcc fault in the second word of a full frame
pub const FAULT_VCC_SHORT_BIT: usize = 2;

/// The bit that indicates a short-to-gnd fault in the second word of a full frame
pub const FAULT_GROUND_SHORT_BIT: usize = 1;

/// The bit that indicates a missing thermocouple in the second word of a full frame
pub const FAULT_NO_THERMOCOUPLE_BIT: usize = 0;

/// Possible errors of a read. `S` is the error of the SPI bus and `C` the error of
/// the chip select pin; both are handed on as they came.
#[derive(Debug, PartialEq, Eq)]
pub enum Error<S, C> {
    /// The exchange of bytes over the bus failed
    SpiError(S),
    /// Driving the chip select pin failed
    ChipSelectError(C),
    /// The converter reported a fault without saying which
    Fault,
    /// The converter reported a short to vcc
    VccShortFault,
    /// The converter reported a short to ground
    GroundShortFault,
    /// The converter reported that no thermocouple is attached
    MissingThermocoupleFault,
}

impl<S, C> Error<S, C> {
    /// Whether the error is a fault that the converter reported, and not a failure of
    /// the bus or of the pin.
    pub open spec fn is_fault(self) -> bool {
        !(self is SpiError) && !(self is ChipSelectError)
    }
}

/// The one fault that the low three bits of `status` name. A missing thermocouple
/// goes before a short to ground, and that before a short to vcc. With none of the
/// three bits set the fault has no name.
pub open spec fn fault_of<S, C>(status: int) -> Error<S, C> {
    if status % 2 == 1 {
        Error::MissingThermocoupleFault
    } else if status / 2 % 2 == 1 {
        Error::GroundShortFault
    } else if status / 4 % 2 == 1 {
        Error::VccShortFault
    } else {
        Error::Fault
    }
}

/// Picks the one fault that the three fault bits of `status`, the second word of a
/// full frame, name.
pub fn resolve_fault<S, C>(status: u16) -> (fault: Error<S, C>)
    ensures
        fault == fault_of::<S, C>(status as int),
        fault.is_fault(),
{
    proof {
        assert(u16_bit(status, 0) == (status % 2 == 1)) by (bit_vector);
        assert(u16_bit(status, 1) == (status / 2 % 2 == 1)) by (bit_vector);
        assert(u16_bit(status, 2) == (status / 4 % 2 == 1)) by (bit_vector);
    }
    if get_bit_u16(status, FAULT_NO_THERMOCOUPLE_BIT) {
        Error::MissingThermocoupleFault
    } else if get_bit_u16(status, FAULT_GROUND_SHORT_BIT) {
        Error::GroundShortFault
    } else if get_bit_u16(status, FAULT_VCC_SHORT_BIT) {
        Error::VccShortFault
    } else {
        Error::Fault
    }
}

/// A status with all three fault bits set names the missing thermocouple, never a
/// short; so does any status with the bit of the missing thermocouple set.
pub proof fn lemma_missing_thermocouple_goes_first<S, C>(status: int)
    requires
        status % 2 == 1,
    ensures
        fault_of::<S, C>(status) == Error::<S, C>::MissingThermocoupleFault,
{
}

/// A short to ground goes before a short to vcc.
pub proof fn lemma_ground_short_goes_second<S, C>(status: int)
    requires
        status % 2 == 0,
        status / 2 % 2 == 1,
    ensures
        fault_of::<S, C>(status) == Error::<S, C>::GroundShortFault,
{
}

/// A status with none of the three fault bits set names the fault without a name.
pub proof fn lemma_no_fault_bit_is_plain_fault<S, C>(status: int)
    requires
        status % 8 == 0,
    ensures
        fault_of::<S, C>(status) == Error::<S, C>::Fault,
{
}

} // verus!
