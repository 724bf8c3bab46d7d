//! Plain computed values that several groups use. Lengths are whole numbers
//! of app units, percentages whole hundredths of a percent, times whole
//! milliseconds.

use vstd::prelude::*;
use crate::coordinated::SingleValue;

verus! {

/// A name interned elsewhere: names are compared by their number.
#[derive(Clone, Copy, Debug, PartialEq, Eq, Structural)]
pub struct Atom {
    pub id: u32,
}

/// A length, in app units.
#[derive(Clone, Copy, Debug, PartialEq, Eq, Structural)]
pub struct Length {
    pub units: i32,
}

/// A length or a percentage.
#[derive(Clone, Copy, Debug, PartialEq, Eq, Structural)]
pub enum LengthPercentage {
    Length(i32),
    Percentage(i32),
}

/// A length, a percentage or `auto`.
#[derive(Clone, Copy, Debug, PartialEq, Eq, Structural)]
pub enum LengthPercentageOrAuto {
    Auto,
    Length(i32),
    Percentage(i32),
}

/// A time, in milliseconds.
#[derive(Clone, Copy, Debug, PartialEq, Eq, Structural)]
pub struct Time {
    pub millis: i32,
}

impl Time {
    /// The time of `millis` milliseconds.
    pub fn from_millis(millis: i32) -> (time: Time)
        ensures
            time.millis == millis,
    {
        Time { millis }
    }

    /// The time in milliseconds.
    pub fn millis(&self) -> (millis: i32)
        ensures
            millis == self.millis,
    {
        self.millis
    }
}

impl SingleValue for Atom {
    fn same_as(&self, other: &Self) -> (same: bool) {
        self.id == other.id
    }
}

impl SingleValue for Time {
    fn same_as(&self, other: &Self) -> (same: bool) {
        self.millis == other.millis
    }
}

impl SingleValue for LengthPercentage {
    fn same_as(&self, other: &Self) -> (same: bool) {
        *self == *other
    }
}

impl SingleValue for LengthPercentageOrAuto {
    fn same_as(&self, other: &Self) -> (same: bool) {
        *self == *other
    }
}

} // verus!
