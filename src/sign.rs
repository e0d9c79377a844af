use vstd::prelude::*;

use core::cmp::Ordering;

verus! {

/// The sign of a number.
#[derive(Clone, Copy, PartialEq, Eq, Debug, Structural)]
pub enum Sign {
    Negative,
    Zero,
    Positive,
}

/// The sign of `i`.
pub open spec fn sign_of(i: int) -> Sign {
    if i < 0 {
        Sign::Negative
    } else if i == 0 {
        Sign::Zero
    } else {
        Sign::Positive
    }
}

/// -1, 0 or 1 for a sign.
pub open spec fn sign_value(s: Sign) -> int {
    match s {
        Sign::Negative => -1,
        Sign::Zero => 0,
        Sign::Positive => 1,
    }
}

impl Sign {
    /// The sign of `i`: negative below zero, positive above it.
    pub fn from_int(i: i64) -> (r: Sign)
        ensures
            r == sign_of(i as int),
    {
        if i < 0 {
            Sign::Negative
        } else if i == 0 {
            Sign::Zero
        } else {
            Sign::Positive
        }
    }

    /// -1 for negative, 0 for zero, 1 for positive.
    pub fn to_int(self) -> (r: i32)
        ensures
            r == sign_value(self),
            sign_of(r as int) == self,
    {
        match self {
            Sign::Negative => -1,
            Sign::Zero => 0,
            Sign::Positive => 1,
        }
    }
}

/// The sign of a value, from the engine's sign test and its range-error flag:
/// the engine answers 0 for NaN and raises the flag, and NaN has no sign.
pub fn sign_from_engine(answer: i32, range_error: bool) -> (r: Option<Sign>)
    ensures
        answer == 0 && range_error ==> r is None,
        !(answer == 0 && range_error) ==> r == Some(sign_of(answer as int)),
{
    let s = Sign::from_int(answer as i64);
    match s {
        Sign::Zero => {
            if range_error {
                None
            } else {
                Some(s)
            }
        },
        _ => Some(s),
    }
}

/// The order of two values, from the engine's comparison and its range-error
/// flag: the engine answers 0 when NaN is involved and raises the flag, and then
/// the values are unordered.
pub fn ordering_from_engine(answer: i32, range_error: bool) -> (r: Option<Ordering>)
    ensures
        answer < 0 ==> r == Some(Ordering::Less),
        answer > 0 ==> r == Some(Ordering::Greater),
        answer == 0 && range_error ==> r is None,
        answer == 0 && !range_error ==> r == Some(Ordering::Equal),
{
    if answer < 0 {
        Some(Ordering::Less)
    } else if answer > 0 {
        Some(Ordering::Greater)
    } else if range_error {
        None
    } else {
        Some(Ordering::Equal)
    }
}

} // verus!
