//! Constants of vertical motion under gravity: the launch velocity, and the
//! surface gravity of the planets.
//!
//! Every quantity is held exactly, as a whole number of a named fraction of
//! its unit.

use vstd::prelude::*;

verus! {

/// Numerator of the launch velocity, in metres per second.
pub const INITIAL_VELOCITY_NUMERATOR: u32 = 3;

/// Denominator of the launch velocity, in metres per second.
pub const INITIAL_VELOCITY_DENOMINATOR: u32 = 44;

/// Gravity used where no planet is named, in tenths of a metre per second
/// squared.
pub const STANDARD_GRAVITY_TENTHS: u32 = 98;

/// A planet of the solar system.
#[derive(Clone, Copy, Debug, Hash, PartialEq, Eq, Structural)]
pub enum Planet {
    Mercury,
    Venus,
    Earth,
    Mars,
    Jupiter,
    Saturn,
    Uranus,
    Neptune,
}

/// Surface gravity of `planet`, in tenths of a metre per second squared.
pub open spec fn gravity_tenths_of(planet: Planet) -> int {
    match planet {
        Planet::Mercury => 37,
        Planet::Venus => 89,
        Planet::Earth => 98,
        Planet::Mars => 37,
        Planet::Jupiter => 231,
        Planet::Saturn => 90,
        Planet::Uranus => 87,
        Planet::Neptune => 110,
    }
}

impl Planet {
    /// Surface gravity, in tenths of a metre per second squared.
    ///
    /// The table has an entry for every planet, and every entry is positive.
    pub fn gravity_tenths(&self) -> (res: u32)
        ensures
            res == gravity_tenths_of(*self),
            res > 0,
    {
        match self {
            Planet::Mercury => 37,
            Planet::Venus => 89,
            Planet::Earth => 98,
            Planet::Mars => 37,
            Planet::Jupiter => 231,
            Planet::Saturn => 90,
            Planet::Uranus => 87,
            Planet::Neptune => 110,
        }
    }
}

} // verus!
