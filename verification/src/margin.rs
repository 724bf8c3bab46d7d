//! The margin group: a plain length, percentage or `auto` for each side.

use vstd::prelude::*;
use crate::values::LengthPercentageOrAuto;

verus! {

/// The margin group.
#[derive(Clone, Copy, Debug, PartialEq, Eq, Structural)]
pub struct Margin {
    pub margin_top: LengthPercentageOrAuto,
    pub margin_right: LengthPercentageOrAuto,
    pub margin_bottom: LengthPercentageOrAuto,
    pub margin_left: LengthPercentageOrAuto,
}

impl View for Margin {
    type V = Margin;

    open spec fn view(&self) -> Margin {
        *self
    }
}

impl Margin {
    /// The initial margin: nothing on any side.
    pub open spec fn initial_model() -> Margin {
        Margin {
            margin_top: LengthPercentageOrAuto::Length(0),
            margin_right: LengthPercentageOrAuto::Length(0),
            margin_bottom: LengthPercentageOrAuto::Length(0),
            margin_left: LengthPercentageOrAuto::Length(0),
        }
    }

    /// The initial margin.
    pub fn initial() -> (margin: Self)
        ensures
            margin == Margin::initial_model(),
    {
        Margin {
            margin_top: LengthPercentageOrAuto::Length(0),
            margin_right: LengthPercentageOrAuto::Length(0),
            margin_bottom: LengthPercentageOrAuto::Length(0),
            margin_left: LengthPercentageOrAuto::Length(0),
        }
    }

    /// Sets `margin-top`.
    pub fn set_margin_top(&mut self, v: LengthPercentageOrAuto)
        ensures
            *final(self) == (Self { margin_top: v, ..*old(self) }),
    {
        self.margin_top = v;
    }

    /// Takes `margin-top` over from `other`.
    pub fn copy_margin_top_from(&mut self, other: &Self)
        ensures
            *final(self) == (Self { margin_top: other.margin_top, ..*old(self) }),
    {
        self.margin_top = other.margin_top;
    }

    /// Resets `margin-top` to what `other` holds, as copying does.
    pub fn reset_margin_top(&mut self, other: &Self)
        ensures
            *final(self) == (Self { margin_top: other.margin_top, ..*old(self) }),
    {
        self.copy_margin_top_from(other)
    }

    /// The value of `margin-top`.
    pub fn clone_margin_top(&self) -> (v: LengthPercentageOrAuto)
        ensures
            v == self.margin_top,
    {
        self.margin_top
    }

    /// Sets `margin-right`.
    pub fn set_margin_right(&mut self, v: LengthPercentageOrAuto)
        ensures
            *final(self) == (Self { margin_right: v, ..*old(self) }),
    {
        self.margin_right = v;
    }

    /// Takes `margin-right` over from `other`.
    pub fn copy_margin_right_from(&mut self, other: &Self)
        ensures
            *final(self) == (Self { margin_right: other.margin_right, ..*old(self) }),
    {
        self.margin_right = other.margin_right;
    }

    /// Resets `margin-right` to what `other` holds, as copying does.
    pub fn reset_margin_right(&mut self, other: &Self)
        ensures
            *final(self) == (Self { margin_right: other.margin_right, ..*old(self) }),
    {
        self.copy_margin_right_from(other)
    }

    /// The value of `margin-right`.
    pub fn clone_margin_right(&self) -> (v: LengthPercentageOrAuto)
        ensures
            v == self.margin_right,
    {
        self.margin_right
    }

    /// Sets `margin-bottom`.
    pub fn set_margin_bottom(&mut self, v: LengthPercentageOrAuto)
        ensures
            *final(self) == (Self { margin_bottom: v, ..*old(self) }),
    {
        self.margin_bottom = v;
    }

    /// Takes `margin-bottom` over from `other`.
    pub fn copy_margin_bottom_from(&mut self, other: &Self)
        ensures
            *final(self) == (Self { margin_bottom: other.margin_bottom, ..*old(self) }),
    {
        self.margin_bottom = other.margin_bottom;
    }

    /// Resets `margin-bottom` to what `other` holds, as copying does.
    pub fn reset_margin_bottom(&mut self, other: &Self)
        ensures
            *final(self) == (Self { margin_bottom: other.margin_bottom, ..*old(self) }),
    {
        self.copy_margin_bottom_from(other)
    }

    /// The value of `margin-bottom`.
    pub fn clone_margin_bottom(&self) -> (v: LengthPercentageOrAuto)
        ensures
            v == self.margin_bottom,
    {
        self.margin_bottom
    }

    /// Sets `margin-left`.
    pub fn set_margin_left(&mut self, v: LengthPercentageOrAuto)
        ensures
            *final(self) == (Self { margin_left: v, ..*old(self) }),
    {
        self.margin_left = v;
    }

    /// Takes `margin-left` over from `other`.
    pub fn copy_margin_left_from(&mut self, other: &Self)
        ensures
            *final(self) == (Self { margin_left: other.margin_left, ..*old(self) }),
    {
        self.margin_left = other.margin_left;
    }

    /// Resets `margin-left` to what `other` holds, as copying does.
    pub fn reset_margin_left(&mut self, other: &Self)
        ensures
            *final(self) == (Self { margin_left: other.margin_left, ..*old(self) }),
    {
        self.copy_margin_left_from(other)
    }

    /// The value of `margin-left`.
    pub fn clone_margin_left(&self) -> (v: LengthPercentageOrAuto)
        ensures
            v == self.margin_left,
    {
        self.margin_left
    }

    /// Whether every property of the group that starts from a fixed value
    /// holds that value.
    pub open spec fn initial_values_hold(model: Margin) -> bool {
        model == Margin::initial_model()
    }

    /// Whether every property of the group that starts from a fixed value
    /// holds that value.
    pub fn has_initial_values(&self) -> (holds: bool)
        ensures
            holds == Self::initial_values_hold(*self),
    {
        *self == Margin::initial()
    }
}

} // verus!
