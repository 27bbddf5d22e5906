//! Classification of a point of the plane by the signs of its coordinates.

use vstd::prelude::*;

verus! {

/// One of the four open regions that the two axes cut the plane into.
///
/// The labels run clockwise: `II` lies below `I`, not to its left.
#[derive(Clone, Copy, Debug, PartialEq, Eq, Structural)]
pub enum Quarter {
    I,
    II,
    III,
    IV,
}

/// The only reason a point has no quarter: it lies on an axis.
#[derive(Clone, Copy, Debug, PartialEq, Eq, Structural)]
pub struct OnAxis;

/// The quarter of the point `(x, y)`, for a point off both axes.
pub open spec fn quarter_of(x: int, y: int) -> Quarter
    recommends
        x != 0,
        y != 0,
{
    if x > 0 {
        if y > 0 {
            Quarter::I
        } else {
            Quarter::II
        }
    } else {
        if y > 0 {
            Quarter::IV
        } else {
            Quarter::III
        }
    }
}

/// The sign of `v` as one of `-1`, `0`, `1`.
pub open spec fn signum(v: int) -> int {
    if v > 0 {
        1
    } else if v < 0 {
        -1
    } else {
        0
    }
}

/// Classifies the point `(x, y)`.
///
/// A point with a zero coordinate lies on an axis and is rejected; every
/// other point gets the quarter that the signs of its coordinates select.
pub fn get_quarter(x: i64, y: i64) -> (res: Result<Quarter, OnAxis>)
    ensures
        (x == 0 || y == 0) <==> res.is_err(),
        res.is_ok() ==> res.unwrap() == quarter_of(x as int, y as int),
{
    if x == 0 || y == 0 {
        return Err(OnAxis);
    }
    Ok(
        match (x > 0, y > 0) {
            (true, true) => Quarter::I,
            (true, false) => Quarter::II,
            (false, false) => Quarter::III,
            (false, true) => Quarter::IV,
        },
    )
}

/// The quarter of a point depends on the signs of its coordinates alone.
pub proof fn lemma_quarter_by_signs(x: int, y: int)
    ensures
        quarter_of(x, y) == quarter_of(signum(x), signum(y)),
{
}

} // verus!
