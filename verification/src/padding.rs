//! The padding group: a plain length or percentage for each side.

use vstd::prelude::*;
use crate::values::LengthPercentage;

verus! {

/// The padding group.
#[derive(Clone, Copy, Debug, PartialEq, Eq, Structural)]
pub struct Padding {
    pub padding_top: LengthPercentage,
    pub padding_right: LengthPercentage,
    pub padding_bottom: LengthPercentage,
    pub padding_left: LengthPercentage,
}

impl View for Padding {
    type V = Padding;

    open spec fn view(&self) -> Padding {
        *self
    }
}

impl Padding {
    /// The initial padding: nothing on any side.
    pub open spec fn initial_model() -> Padding {
        Padding {
            padding_top: LengthPercentage::Length(0),
            padding_right: LengthPercentage::Length(0),
            padding_bottom: LengthPercentage::Length(0),
            padding_left: LengthPercentage::Length(0),
        }
    }

    /// The initial padding.
    pub fn initial() -> (padding: Self)
        ensures
            padding == Padding::initial_model(),
    {
        Padding {
            padding_top: LengthPercentage::Length(0),
            padding_right: LengthPercentage::Length(0),
            padding_bottom: LengthPercentage::Length(0),
            padding_left: LengthPercentage::Length(0),
        }
    }

    /// Sets `padding-top`.
    pub fn set_padding_top(&mut self, v: LengthPercentage)
        ensures
            *final(self) == (Self { padding_top: v, ..*old(self) }),
    {
        self.padding_top = v;
    }

    /// Takes `padding-top` over from `other`.
    pub fn copy_padding_top_from(&mut self, other: &Self)
        ensures
            *final(self) == (Self { padding_top: other.padding_top, ..*old(self) }),
    {
        self.padding_top = other.padding_top;
    }

    /// Resets `padding-top` to what `other` holds, as copying does.
    pub fn reset_padding_top(&mut self, other: &Self)
        ensures
            *final(self) == (Self { padding_top: other.padding_top, ..*old(self) }),
    {
        self.copy_padding_top_from(other)
    }

    /// The value of `padding-top`.
    pub fn clone_padding_top(&self) -> (v: LengthPercentage)
        ensures
            v == self.padding_top,
    {
        self.padding_top
    }

    /// Sets `padding-right`.
    pub fn set_padding_right(&mut self, v: LengthPercentage)
        ensures
            *final(self) == (Self { padding_right: v, ..*old(self) }),
    {
        self.padding_right = v;
    }

    /// Takes `padding-right` over from `other`.
    pub fn copy_padding_right_from(&mut self, other: &Self)
        ensures
            *final(self) == (Self { padding_right: other.padding_right, ..*old(self) }),
    {
        self.padding_right = other.padding_right;
    }

    /// Resets `padding-right` to what `other` holds, as copying does.
    pub fn reset_padding_right(&mut self, other: &Self)
        ensures
            *final(self) == (Self { padding_right: other.padding_right, ..*old(self) }),
    {
        self.copy_padding_right_from(other)
    }

    /// The value of `padding-right`.
    pub fn clone_padding_right(&self) -> (v: LengthPercentage)
        ensures
            v == self.padding_right,
    {
        self.padding_right
    }

    /// Sets `padding-bottom`.
    pub fn set_padding_bottom(&mut self, v: LengthPercentage)
        ensures
            *final(self) == (Self { padding_bottom: v, ..*old(self) }),
    {
        self.padding_bottom = v;
    }

    /// Takes `padding-bottom` over from `other`.
    pub fn copy_padding_bottom_from(&mut self, other: &Self)
        ensures
            *final(self) == (Self { padding_bottom: other.padding_bottom, ..*old(self) }),
    {
        self.padding_bottom = other.padding_bottom;
    }

    /// Resets `padding-bottom` to what `other` holds, as copying does.
    pub fn reset_padding_bottom(&mut self, other: &Self)
        ensures
            *final(self) == (Self { padding_bottom: other.padding_bottom, ..*old(self) }),
    {
        self.copy_padding_bottom_from(other)
    }

    /// The value of `padding-bottom`.
    pub fn clone_padding_bottom(&self) -> (v: LengthPercentage)
        ensures
            v == self.padding_bottom,
    {
        self.padding_bottom
    }

    /// Sets `padding-left`.
    pub fn set_padding_left(&mut self, v: LengthPercentage)
        ensures
            *final(self) == (Self { padding_left: v, ..*old(self) }),
    {
        self.padding_left = v;
    }

    /// Takes `padding-left` over from `other`.
    pub fn copy_padding_left_from(&mut self, other: &Self)
        ensures
            *final(self) == (Self { padding_left: other.padding_left, ..*old(self) }),
    {
        self.padding_left = other.padding_left;
    }

    /// Resets `padding-left` to what `other` holds, as copying does.
    pub fn reset_padding_left(&mut self, other: &Self)
        ensures
            *final(self) == (Self { padding_left: other.padding_left, ..*old(self) }),
    {
        self.copy_padding_left_from(other)
    }

    /// The value of `padding-left`.
    pub fn clone_padding_left(&self) -> (v: LengthPercentage)
        ensures
            v == self.padding_left,
    {
        self.padding_left
    }

    /// Whether every property of the group that starts from a fixed value
    /// holds that value.
    pub open spec fn initial_values_hold(model: Padding) -> bool {
        model == Padding::initial_model()
    }

    /// Whether every property of the group that starts from a fixed value
    /// holds that value.
    pub fn has_initial_values(&self) -> (holds: bool)
        ensures
            holds == Self::initial_values_hold(*self),
    {
        *self == Padding::initial()
    }
}

} // verus!
