//! The logic of a driver for the MAX31855 thermocouple converter: what the bytes
//! of a frame mean, which fault a frame reports, and in which order a read drives
//! the chip select pin and the bus.
//!
//! * `bits` reads single bits and bit ranges with the `bit_field` crate.
//! * `count` turns the bit field of a temperature into a signed ADC count.
//! * `error` holds the errors of a read and resolves the fault bits to one fault.
//! * `frame` decodes the short frame of two bytes and the full frame of four.
//! * `transaction` puts the hardware steps of a read in order.
//! * `unit` names the units in which a temperature can be asked for.
//!
//! Nothing here touches hardware: the caller exchanges the bytes and hands them
//! over.

pub mod bits;
pub mod count;
pub mod error;
pub mod frame;
pub mod transaction;
pub mod unit;

pub use count::{bits_to_i16, Reading};
pub use error::{resolve_fault, Error};
pub use frame::{read_all_raw, read_thermocouple_raw, FullResultRaw};
pub use transaction::{Next, Outcome, Step};
pub use unit::Unit;
