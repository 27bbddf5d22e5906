//! Imperial units of length, each as a whole number of inches.

use vstd::prelude::*;

verus! {

/// Length of one inch, in hundredths of a centimetre.
pub const INCH_IN_CENTIMETRE_HUNDREDTHS: u32 = 254;

/// Centimetres in one metre.
pub const CENTIMETRES_IN_METRE: u32 = 100;

/// An imperial unit of length.
#[derive(Clone, Copy, Debug, Hash, PartialEq, Eq, Structural)]
pub enum ImperialUnit {
    Inch,
    Foot,
    Yard,
    Mile,
}

/// Inches in one `unit`.
///
/// A foot is twelve inches, a yard three feet, a mile 1760 yards.
pub open spec fn inches_in(unit: ImperialUnit) -> int {
    match unit {
        ImperialUnit::Inch => 1,
        ImperialUnit::Foot => 12,
        ImperialUnit::Yard => 12int * 3,
        ImperialUnit::Mile => 12int * 3 * 1760,
    }
}

impl ImperialUnit {
    /// Inches in one of this unit.
    ///
    /// A length of `m` metres is `m * 100 / 2.54` inches, so it is that
    /// many of this unit divided by the number returned here.
    pub fn inches(&self) -> (res: u32)
        ensures
            res == inches_in(*self),
            res > 0,
    {
        match self {
            ImperialUnit::Inch => 1,
            ImperialUnit::Foot => 12,
            ImperialUnit::Yard => 36,
            ImperialUnit::Mile => 63360,
        }
    }
}

} // verus!
