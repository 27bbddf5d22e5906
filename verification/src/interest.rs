//! The number of compounding periods of a deposit.

use vstd::prelude::*;

verus! {

/// Compounding periods over `years` years with `per_year` periods a year.
///
/// `None` exactly where the product does not fit the result type.
pub fn compounding_periods(per_year: i32, years: i32) -> (res: Option<i32>)
    ensures
        match res {
            Some(periods) => periods == per_year * years,
            None => per_year * years < i32::MIN || per_year * years > i32::MAX,
        },
{
    per_year.checked_mul(years)
}

} // verus!
