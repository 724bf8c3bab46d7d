//! What the device contributes: the zoom that text is shown at.

use vstd::prelude::*;
use crate::values::Length;

verus! {

/// A zoom factor in sixty-fourths: 64 stands for one, 96 for one and a half.
#[derive(Clone, Copy, Debug, PartialEq, Eq, Structural)]
pub struct Zoom {
    pub value: u16,
}

/// A length of `units` app units with a zoom of `zoom` sixty-fourths taken
/// out of it. A zoom of one or of nothing, and a length that is not
/// positive, leave the length as it is; the result never passes the largest
/// length.
pub open spec fn unzoomed_units(units: int, zoom: int) -> int {
    if zoom == 64 || zoom <= 0 || units <= 0 {
        units
    } else if units * 64 / zoom > i32::MAX {
        i32::MAX as int
    } else {
        units * 64 / zoom
    }
}

impl Zoom {
    /// The zoom of one: nothing is scaled.
    pub const ONE: u16 = 64;

    /// Takes the zoom out of a length.
    pub fn unzoom(&self, length: Length) -> (unzoomed: Length)
        ensures
            unzoomed.units == unzoomed_units(length.units as int, self.value as int),
    {
        if self.value == Zoom::ONE || self.value == 0 || length.units <= 0 {
            return length;
        }
        let scaled: i64 = (length.units as i64) * 64 / (self.value as i64);
        if scaled > i32::MAX as i64 {
            Length { units: i32::MAX }
        } else {
            Length { units: scaled as i32 }
        }
    }
}

/// The device that a document is shown on.
#[derive(Clone, Copy, Debug, PartialEq, Eq, Structural)]
pub struct Device {
    /// The zoom that text alone is shown at.
    pub text_zoom: Zoom,
}

impl Device {
    /// A text size with the device's text zoom taken out of it.
    pub fn unzoom_text(&self, size: Length) -> (unzoomed: Length)
        ensures
            unzoomed.units == unzoomed_units(size.units as int, self.text_zoom.value as int),
    {
        self.text_zoom.unzoom(size)
    }
}

/// A zoom of one changes no length, and unzooming never turns a length
/// negative.
pub proof fn unzoom_laws(units: int, zoom: int)
    ensures
        unzoomed_units(units, 64) == units,
        units >= 0 && zoom >= 0 ==> unzoomed_units(units, zoom) >= 0,
{
    if units > 0 && zoom > 0 && zoom != 64 {
        assert(units * 64 / zoom >= 0) by (nonlinear_arith)
            requires
                units > 0,
                zoom > 0,
        ;
    }
}

} // verus!
