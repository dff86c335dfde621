//! The units in which a temperature can be asked for.

use vstd::prelude::*;

verus! {

/// The temperature unit to use
#[derive(Clone, Copy, Debug, PartialEq, Eq)]
pub enum Unit {
    /// Degrees Celsius
    Celsius,
    /// Degrees Fahrenheit
    Fahrenheit,
    /// Degrees Kelvin
    Kelvin,
}

} // verus!
