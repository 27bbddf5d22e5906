//! Which formula takes a temperature from one scale to another.

use vstd::prelude::*;

verus! {

/// A temperature scale.
#[derive(Clone, Copy, Debug, PartialEq, Eq, Structural)]
pub enum Temp {
    Celcius,
    Fahrenheit,
}

/// How a value on one scale becomes a value on another.
#[derive(Clone, Copy, Debug, PartialEq, Eq, Structural)]
pub enum Conversion {
    /// Nine fifths of the value, plus 32.
    CelciusToFahrenheit,
    /// Five ninths of what the value exceeds 32 by.
    FahrenheitToCelcius,
    /// The value as it is.
    Unchanged,
}

/// The conversion from `from` to `to`.
///
/// Only the two pairs of different scales have a formula; every other pair
/// leaves the value unchanged.
pub open spec fn conversion_between(from: Temp, to: Temp) -> Conversion {
    match (from, to) {
        (Temp::Celcius, Temp::Fahrenheit) => Conversion::CelciusToFahrenheit,
        (Temp::Fahrenheit, Temp::Celcius) => Conversion::FahrenheitToCelcius,
        _ => Conversion::Unchanged,
    }
}

/// Picks the conversion from `from` to `to`.
///
/// A conversion from a scale to itself leaves every value unchanged.
pub fn conversion(from: Temp, to: Temp) -> (res: Conversion)
    ensures
        res == conversion_between(from, to),
        from == to ==> res == Conversion::Unchanged,
{
    match (from, to) {
        (Temp::Celcius, Temp::Fahrenheit) => Conversion::CelciusToFahrenheit,
        (Temp::Fahrenheit, Temp::Celcius) => Conversion::FahrenheitToCelcius,
        _ => Conversion::Unchanged,
    }
}

} // verus!
