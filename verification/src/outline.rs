//! The outline group: the outline's style with its dependent width, and
//! its offset.

use vstd::prelude::*;
use app_units::Au;
use crate::border::{Border, BorderStyle};
use crate::dependent_width::{DependentWidth, LineStyle, WidthModel};
use crate::units::{au_of, au_units};
use crate::values::Length;

verus! {

/// The style of an outline: `auto`, or a border style.
#[derive(Clone, Copy, Debug, PartialEq, Eq, Structural)]
pub enum OutlineStyle {
    Auto,
    BorderStyle(BorderStyle),
}

impl LineStyle for OutlineStyle {
    open spec fn hides_line(self) -> bool {
        self == OutlineStyle::BorderStyle(BorderStyle::NoLine) || self == OutlineStyle::BorderStyle(
            BorderStyle::Hidden,
        )
    }

    fn none_or_hidden(&self) -> (hidden: bool) {
        match self {
            OutlineStyle::Auto => false,
            OutlineStyle::BorderStyle(style) => style.none_or_hidden(),
        }
    }
}

/// What the outline group holds.
pub struct OutlineModel {
    pub outline: WidthModel<OutlineStyle>,
    pub outline_offset: Length,
}

/// The outline group.
#[derive(Clone, Copy)]
pub struct Outline {
    pub outline: DependentWidth<OutlineStyle>,
    pub outline_offset: Length,
}

impl View for Outline {
    type V = OutlineModel;

    open spec fn view(&self) -> OutlineModel {
        OutlineModel { outline: self.outline@, outline_offset: self.outline_offset }
    }
}

impl Outline {
    /// The initial outline: no style, the width `medium` specified and
    /// nothing effective, no offset.
    pub open spec fn initial_model() -> OutlineModel {
        OutlineModel {
            outline: WidthModel {
                style: OutlineStyle::BorderStyle(BorderStyle::NoLine),
                specified: Border::MEDIUM_WIDTH as int,
                effective: 0,
            },
            outline_offset: Length { units: 0 },
        }
    }

    /// The initial outline.
    pub fn initial() -> (outline: Self)
        ensures
            outline@ == Outline::initial_model(),
    {
        Outline {
            outline: DependentWidth::new(
                OutlineStyle::BorderStyle(BorderStyle::NoLine),
                au_of(Border::MEDIUM_WIDTH),
            ),
            outline_offset: Length { units: 0 },
        }
    }

    /// Applies a style and derives the effective width at once.
    pub fn set_outline_style(&mut self, v: OutlineStyle)
        ensures
            final(self)@ == (OutlineModel {
                outline: old(self)@.outline.with_style(v),
                ..old(self)@
            }),
    {
        self.outline.set_style(v);
    }

    /// Applies the `outline-style` of `other` and derives the effective width at
    /// once.
    pub fn copy_outline_style_from(&mut self, other: &Self)
        ensures
            final(self)@ == (OutlineModel {
                outline: old(self)@.outline.with_style(other@.outline.style),
                ..old(self)@
            }),
    {
        self.set_outline_style(other.outline.clone_style());
    }

    /// Resets `outline-style` to what `other` holds, as copying does.
    pub fn reset_outline_style(&mut self, other: &Self)
        ensures
            final(self)@ == (OutlineModel {
                outline: old(self)@.outline.with_style(other@.outline.style),
                ..old(self)@
            }),
    {
        self.copy_outline_style_from(other)
    }

    /// The value of `outline-style`.
    pub fn clone_outline_style(&self) -> (v: OutlineStyle)
        ensures
            v == self@.outline.style,
    {
        self.outline.clone_style()
    }

    /// Sets the specified width; the effective width waits for the style.
    pub fn set_outline_width(&mut self, v: Au)
        ensures
            final(self)@ == (OutlineModel {
                outline: old(self)@.outline.with_specified(au_units(v)),
                ..old(self)@
            }),
    {
        self.outline.set_width(v);
    }

    /// Takes over the `outline-width` specified in `other`, never its effective
    /// width, and derives the effective width anew.
    pub fn copy_outline_width_from(&mut self, other: &Self)
        ensures
            final(self)@ == (OutlineModel {
                outline: old(self)@.outline.with_copied_width(other@.outline.specified),
                ..old(self)@
            }),
    {
        self.outline.copy_width_from(&other.outline);
    }

    /// Resets `outline-width` to what `other` holds, as copying does.
    pub fn reset_outline_width(&mut self, other: &Self)
        ensures
            final(self)@ == (OutlineModel {
                outline: old(self)@.outline.with_copied_width(other@.outline.specified),
                ..old(self)@
            }),
    {
        self.copy_outline_width_from(other)
    }

    /// The effective width.
    pub fn clone_outline_width(&self) -> (v: Au)
        ensures
            au_units(v) == self@.outline.effective,
    {
        self.outline.clone_width()
    }

    /// Whether the line is drawn at all: its effective width is not zero.
    pub fn outline_has_nonzero_width(&self) -> (nonzero: bool)
        ensures
            nonzero == (self@.outline.effective != 0),
    {
        self.outline.has_nonzero_width()
    }

    /// Sets `outline-offset`.
    pub fn set_outline_offset(&mut self, v: Length)
        ensures
            final(self)@ == (OutlineModel { outline_offset: v, ..old(self)@ }),
    {
        self.outline_offset = v;
    }

    /// Takes `outline-offset` over from `other`.
    pub fn copy_outline_offset_from(&mut self, other: &Self)
        ensures
            final(self)@ == (OutlineModel { outline_offset: other@.outline_offset, ..old(self)@ }),
    {
        self.outline_offset = other.outline_offset;
    }

    /// Resets `outline-offset` to what `other` holds, as copying does.
    pub fn reset_outline_offset(&mut self, other: &Self)
        ensures
            final(self)@ == (OutlineModel { outline_offset: other@.outline_offset, ..old(self)@ }),
    {
        self.copy_outline_offset_from(other)
    }

    /// The value of `outline-offset`.
    pub fn clone_outline_offset(&self) -> (v: Length)
        ensures
            v == self@.outline_offset,
    {
        self.outline_offset
    }

    /// Whether every property of the group that starts from a fixed value
    /// holds that value.
    pub open spec fn initial_values_hold(model: OutlineModel) -> bool {
        &&& model.outline.style == OutlineStyle::BorderStyle(BorderStyle::NoLine)
        &&& model.outline_offset == (Length { units: 0 })
    }

    /// Whether every property of the group that starts from a fixed value
    /// holds that value.
    pub fn has_initial_values(&self) -> (holds: bool)
        ensures
            holds == Self::initial_values_hold(self@),
    {
        self.outline.clone_style() == OutlineStyle::BorderStyle(BorderStyle::NoLine)
            && self.outline_offset.units == 0
    }
}

} // verus!
