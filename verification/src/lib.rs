//! Small, independent computations on exact values: decoding of PESEL
//! identity numbers, classification of points by quarter, and the constant
//! tables and case distinctions of a few physical and unit-conversion
//! formulas.

pub mod imperial;
pub mod interest;
pub mod kinematics;
pub mod pesel;
pub mod quarter;
pub mod temp;
