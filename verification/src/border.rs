//! The border group: a style and a dependent width for each physical side.

use vstd::prelude::*;
use app_units::Au;
use crate::dependent_width::{DependentWidth, LineStyle, WidthModel};
use crate::keyword::{Encoded, Keyword};
use crate::units::{au_of, au_units};

verus! {

/// The style of a border, an outline or a column rule.
#[derive(Clone, Copy, Debug, PartialEq, Eq, Structural)]
pub enum BorderStyle {
    Hidden,
    /// The keyword `none`.
    NoLine,
    Inset,
    Groove,
    Outset,
    Ridge,
    Dotted,
    Dashed,
    Solid,
    Double,
}

impl LineStyle for BorderStyle {
    open spec fn hides_line(self) -> bool {
        self == BorderStyle::NoLine || self == BorderStyle::Hidden
    }

    fn none_or_hidden(&self) -> (hidden: bool) {
        match self {
            BorderStyle::NoLine | BorderStyle::Hidden => true,
            _ => false,
        }
    }
}

/// A physical side of a box.
#[derive(Clone, Copy, Debug, PartialEq, Eq, Structural)]
pub enum Side {
    Top,
    Right,
    Bottom,
    Left,
}

impl Side {
    /// The side's place in per-side arrays: top, right, bottom, left.
    pub open spec fn place(self) -> nat {
        match self {
            Side::Top => 0,
            Side::Right => 1,
            Side::Bottom => 2,
            Side::Left => 3,
        }
    }

    /// The side's place in per-side arrays.
    pub fn index(self) -> (index: usize)
        ensures
            index == self.place(),
            index < 4,
    {
        match self {
            Side::Top => 0,
            Side::Right => 1,
            Side::Bottom => 2,
            Side::Left => 3,
        }
    }

    /// The side at a place; `None` exactly when the place is none of the
    /// four.
    pub fn from_index(index: usize) -> (side: Option<Side>)
        ensures
            match side {
                Some(s) => s.place() == index,
                None => index >= 4,
            },
    {
        match index {
            0 => Some(Side::Top),
            1 => Some(Side::Right),
            2 => Some(Side::Bottom),
            3 => Some(Side::Left),
            _ => None,
        }
    }
}

/// How a box's decorations behave where the box is broken into fragments.
#[derive(Clone, Copy, Debug, PartialEq, Eq, Structural)]
pub enum BoxDecorationBreak {
    Slice,
    Clone,
}

impl Keyword for BoxDecorationBreak {
    open spec fn code(self) -> u8 {
        match self {
            BoxDecorationBreak::Slice => 0,
            BoxDecorationBreak::Clone => 1,
        }
    }

    proof fn codes_differ(a: Self, b: Self) {
    }

    fn encode(self) -> (code: u8) {
        match self {
            BoxDecorationBreak::Slice => 0,
            BoxDecorationBreak::Clone => 1,
        }
    }

    fn decode(code: u8) -> (keyword: Option<Self>) {
        match code {
            0 => Some(BoxDecorationBreak::Slice),
            1 => Some(BoxDecorationBreak::Clone),
            _ => None,
        }
    }
}

/// What the border group holds.
pub struct BorderModel {
    pub top: WidthModel<BorderStyle>,
    pub right: WidthModel<BorderStyle>,
    pub bottom: WidthModel<BorderStyle>,
    pub left: WidthModel<BorderStyle>,
    pub box_decoration_break: BoxDecorationBreak,
}

impl BorderModel {
    /// The style and widths of one side.
    pub open spec fn side(self, side: Side) -> WidthModel<BorderStyle> {
        match side {
            Side::Top => self.top,
            Side::Right => self.right,
            Side::Bottom => self.bottom,
            Side::Left => self.left,
        }
    }
}

/// The border group.
#[derive(Clone, Copy)]
pub struct Border {
    pub top: DependentWidth<BorderStyle>,
    pub right: DependentWidth<BorderStyle>,
    pub bottom: DependentWidth<BorderStyle>,
    pub left: DependentWidth<BorderStyle>,
    pub box_decoration_break: Encoded<BoxDecorationBreak>,
}

impl View for Border {
    type V = BorderModel;

    open spec fn view(&self) -> BorderModel {
        BorderModel {
            top: self.top@,
            right: self.right@,
            bottom: self.bottom@,
            left: self.left@,
            box_decoration_break: self.box_decoration_break@,
        }
    }
}

impl Border {
    /// The initial border width, `medium`: three pixels, in app units.
    pub const MEDIUM_WIDTH: i32 = 180;

    /// The initial border: every side without a style, with the width
    /// `medium` specified and nothing effective.
    pub open spec fn initial_model() -> BorderModel {
        let side = WidthModel {
            style: BorderStyle::NoLine,
            specified: Border::MEDIUM_WIDTH as int,
            effective: 0,
        };
        BorderModel {
            top: side,
            right: side,
            bottom: side,
            left: side,
            box_decoration_break: BoxDecorationBreak::Slice,
        }
    }

    /// The initial border.
    pub fn initial() -> (border: Self)
        ensures
            border@ == Border::initial_model(),
    {
        let side = DependentWidth::new(BorderStyle::NoLine, au_of(Border::MEDIUM_WIDTH));
        Border {
            top: side,
            right: side,
            bottom: side,
            left: side,
            box_decoration_break: Encoded::new(BoxDecorationBreak::Slice),
        }
    }

    /// The style and widths of one side.
    pub fn side(&self, side: Side) -> (pair: &DependentWidth<BorderStyle>)
        ensures
            pair@ == self@.side(side),
    {
        match side {
            Side::Top => &self.top,
            Side::Right => &self.right,
            Side::Bottom => &self.bottom,
            Side::Left => &self.left,
        }
    }

    /// Sets `box-decoration-break`.
    pub fn set_box_decoration_break(&mut self, v: BoxDecorationBreak)
        ensures
            final(self)@ == (BorderModel { box_decoration_break: v, ..old(self)@ }),
    {
        self.box_decoration_break = Encoded::new(v);
    }

    /// Takes `box-decoration-break` over from `other`.
    pub fn copy_box_decoration_break_from(&mut self, other: &Self)
        ensures
            final(self)@ == (BorderModel {
                box_decoration_break: other@.box_decoration_break,
                ..old(self)@
            }),
    {
        self.box_decoration_break = other.box_decoration_break;
    }

    /// Resets `box-decoration-break` to what `other` holds, as copying does.
    pub fn reset_box_decoration_break(&mut self, other: &Self)
        ensures
            final(self)@ == (BorderModel {
                box_decoration_break: other@.box_decoration_break,
                ..old(self)@
            }),
    {
        self.copy_box_decoration_break_from(other)
    }

    /// The value of `box-decoration-break`.
    pub fn clone_box_decoration_break(&self) -> (v: BoxDecorationBreak)
        ensures
            v == self@.box_decoration_break,
    {
        self.box_decoration_break.get()
    }

    /// Applies a style to the top side and derives its effective width.
    pub fn set_border_top_style(&mut self, v: BorderStyle)
        ensures
            final(self)@ == (BorderModel { top: old(self)@.top.with_style(v), ..old(self)@ }),
    {
        self.top.set_style(v);
    }

    /// Applies the `border-top-style` of `other` and derives the effective width at
    /// once.
    pub fn copy_border_top_style_from(&mut self, other: &Self)
        ensures
            final(self)@ == (BorderModel {
                top: old(self)@.top.with_style(other@.top.style),
                ..old(self)@
            }),
    {
        self.top.copy_style_from(&other.top);
    }

    /// Resets `border-top-style` to what `other` holds, as copying does.
    pub fn reset_border_top_style(&mut self, other: &Self)
        ensures
            final(self)@ == (BorderModel {
                top: old(self)@.top.with_style(other@.top.style),
                ..old(self)@
            }),
    {
        self.copy_border_top_style_from(other);
    }

    /// The value of `border-top-style`.
    pub fn clone_border_top_style(&self) -> (v: BorderStyle)
        ensures
            v == self@.top.style,
    {
        self.top.clone_style()
    }

    /// Sets the width specified for the top side.
    pub fn set_border_top_width(&mut self, v: Au)
        ensures
            final(self)@ == (BorderModel {
                top: old(self)@.top.with_specified(au_units(v)),
                ..old(self)@
            }),
    {
        self.top.set_width(v);
    }

    /// Takes over the `border-top-width` specified in `other`, never its effective
    /// width, and derives the effective width anew.
    pub fn copy_border_top_width_from(&mut self, other: &Self)
        ensures
            final(self)@ == (BorderModel {
                top: old(self)@.top.with_copied_width(other@.top.specified),
                ..old(self)@
            }),
    {
        self.top.copy_width_from(&other.top);
    }

    /// Resets `border-top-width` to what `other` holds, as copying does.
    pub fn reset_border_top_width(&mut self, other: &Self)
        ensures
            final(self)@ == (BorderModel {
                top: old(self)@.top.with_copied_width(other@.top.specified),
                ..old(self)@
            }),
    {
        self.copy_border_top_width_from(other);
    }

    /// The effective width of the top side.
    pub fn clone_border_top_width(&self) -> (v: Au)
        ensures
            au_units(v) == self@.top.effective,
    {
        self.top.clone_width()
    }

    /// Whether the line is drawn at all: its effective width is not zero.
    pub fn border_top_has_nonzero_width(&self) -> (nonzero: bool)
        ensures
            nonzero == (self@.top.effective != 0),
    {
        self.top.has_nonzero_width()
    }

    /// Applies a style to the right side and derives its effective width.
    pub fn set_border_right_style(&mut self, v: BorderStyle)
        ensures
            final(self)@ == (BorderModel { right: old(self)@.right.with_style(v), ..old(self)@ }),
    {
        self.right.set_style(v);
    }

    /// Applies the `border-right-style` of `other` and derives the effective width at
    /// once.
    pub fn copy_border_right_style_from(&mut self, other: &Self)
        ensures
            final(self)@ == (BorderModel {
                right: old(self)@.right.with_style(other@.right.style),
                ..old(self)@
            }),
    {
        self.right.copy_style_from(&other.right);
    }

    /// Resets `border-right-style` to what `other` holds, as copying does.
    pub fn reset_border_right_style(&mut self, other: &Self)
        ensures
            final(self)@ == (BorderModel {
                right: old(self)@.right.with_style(other@.right.style),
                ..old(self)@
            }),
    {
        self.copy_border_right_style_from(other);
    }

    /// The value of `border-right-style`.
    pub fn clone_border_right_style(&self) -> (v: BorderStyle)
        ensures
            v == self@.right.style,
    {
        self.right.clone_style()
    }

    /// Sets the width specified for the right side.
    pub fn set_border_right_width(&mut self, v: Au)
        ensures
            final(self)@ == (BorderModel {
                right: old(self)@.right.with_specified(au_units(v)),
                ..old(self)@
            }),
    {
        self.right.set_width(v);
    }

    /// Takes over the `border-right-width` specified in `other`, never its effective
    /// width, and derives the effective width anew.
    pub fn copy_border_right_width_from(&mut self, other: &Self)
        ensures
            final(self)@ == (BorderModel {
                right: old(self)@.right.with_copied_width(other@.right.specified),
                ..old(self)@
            }),
    {
        self.right.copy_width_from(&other.right);
    }

    /// Resets `border-right-width` to what `other` holds, as copying does.
    pub fn reset_border_right_width(&mut self, other: &Self)
        ensures
            final(self)@ == (BorderModel {
                right: old(self)@.right.with_copied_width(other@.right.specified),
                ..old(self)@
            }),
    {
        self.copy_border_right_width_from(other);
    }

    /// The effective width of the right side.
    pub fn clone_border_right_width(&self) -> (v: Au)
        ensures
            au_units(v) == self@.right.effective,
    {
        self.right.clone_width()
    }

    /// Whether the line is drawn at all: its effective width is not zero.
    pub fn border_right_has_nonzero_width(&self) -> (nonzero: bool)
        ensures
            nonzero == (self@.right.effective != 0),
    {
        self.right.has_nonzero_width()
    }

    /// Applies a style to the bottom side and derives its effective width.
    pub fn set_border_bottom_style(&mut self, v: BorderStyle)
        ensures
            final(self)@ == (BorderModel { bottom: old(self)@.bottom.with_style(v), ..old(self)@ }),
    {
        self.bottom.set_style(v);
    }

    /// Applies the `border-bottom-style` of `other` and derives the effective width at
    /// once.
    pub fn copy_border_bottom_style_from(&mut self, other: &Self)
        ensures
            final(self)@ == (BorderModel {
                bottom: old(self)@.bottom.with_style(other@.bottom.style),
                ..old(self)@
            }),
    {
        self.bottom.copy_style_from(&other.bottom);
    }

    /// Resets `border-bottom-style` to what `other` holds, as copying does.
    pub fn reset_border_bottom_style(&mut self, other: &Self)
        ensures
            final(self)@ == (BorderModel {
                bottom: old(self)@.bottom.with_style(other@.bottom.style),
                ..old(self)@
            }),
    {
        self.copy_border_bottom_style_from(other);
    }

    /// The value of `border-bottom-style`.
    pub fn clone_border_bottom_style(&self) -> (v: BorderStyle)
        ensures
            v == self@.bottom.style,
    {
        self.bottom.clone_style()
    }

    /// Sets the width specified for the bottom side.
    pub fn set_border_bottom_width(&mut self, v: Au)
        ensures
            final(self)@ == (BorderModel {
                bottom: old(self)@.bottom.with_specified(au_units(v)),
                ..old(self)@
            }),
    {
        self.bottom.set_width(v);
    }

    /// Takes over the `border-bottom-width` specified in `other`, never its effective
    /// width, and derives the effective width anew.
    pub fn copy_border_bottom_width_from(&mut self, other: &Self)
        ensures
            final(self)@ == (BorderModel {
                bottom: old(self)@.bottom.with_copied_width(other@.bottom.specified),
                ..old(self)@
            }),
    {
        self.bottom.copy_width_from(&other.bottom);
    }

    /// Resets `border-bottom-width` to what `other` holds, as copying does.
    pub fn reset_border_bottom_width(&mut self, other: &Self)
        ensures
            final(self)@ == (BorderModel {
                bottom: old(self)@.bottom.with_copied_width(other@.bottom.specified),
                ..old(self)@
            }),
    {
        self.copy_border_bottom_width_from(other);
    }

    /// The effective width of the bottom side.
    pub fn clone_border_bottom_width(&self) -> (v: Au)
        ensures
            au_units(v) == self@.bottom.effective,
    {
        self.bottom.clone_width()
    }

    /// Whether the line is drawn at all: its effective width is not zero.
    pub fn border_bottom_has_nonzero_width(&self) -> (nonzero: bool)
        ensures
            nonzero == (self@.bottom.effective != 0),
    {
        self.bottom.has_nonzero_width()
    }

    /// Applies a style to the left side and derives its effective width.
    pub fn set_border_left_style(&mut self, v: BorderStyle)
        ensures
            final(self)@ == (BorderModel { left: old(self)@.left.with_style(v), ..old(self)@ }),
    {
        self.left.set_style(v);
    }

    /// Applies the `border-left-style` of `other` and derives the effective width at
    /// once.
    pub fn copy_border_left_style_from(&mut self, other: &Self)
        ensures
            final(self)@ == (BorderModel {
                left: old(self)@.left.with_style(other@.left.style),
                ..old(self)@
            }),
    {
        self.left.copy_style_from(&other.left);
    }

    /// Resets `border-left-style` to what `other` holds, as copying does.
    pub fn reset_border_left_style(&mut self, other: &Self)
        ensures
            final(self)@ == (BorderModel {
                left: old(self)@.left.with_style(other@.left.style),
                ..old(self)@
            }),
    {
        self.copy_border_left_style_from(other);
    }

    /// The value of `border-left-style`.
    pub fn clone_border_left_style(&self) -> (v: BorderStyle)
        ensures
            v == self@.left.style,
    {
        self.left.clone_style()
    }

    /// Sets the width specified for the left side.
    pub fn set_border_left_width(&mut self, v: Au)
        ensures
            final(self)@ == (BorderModel {
                left: old(self)@.left.with_specified(au_units(v)),
                ..old(self)@
            }),
    {
        self.left.set_width(v);
    }

    /// Takes over the `border-left-width` specified in `other`, never its effective
    /// width, and derives the effective width anew.
    pub fn copy_border_left_width_from(&mut self, other: &Self)
        ensures
            final(self)@ == (BorderModel {
                left: old(self)@.left.with_copied_width(other@.left.specified),
                ..old(self)@
            }),
    {
        self.left.copy_width_from(&other.left);
    }

    /// Resets `border-left-width` to what `other` holds, as copying does.
    pub fn reset_border_left_width(&mut self, other: &Self)
        ensures
            final(self)@ == (BorderModel {
                left: old(self)@.left.with_copied_width(other@.left.specified),
                ..old(self)@
            }),
    {
        self.copy_border_left_width_from(other);
    }

    /// The effective width of the left side.
    pub fn clone_border_left_width(&self) -> (v: Au)
        ensures
            au_units(v) == self@.left.effective,
    {
        self.left.clone_width()
    }

    /// Whether the line is drawn at all: its effective width is not zero.
    pub fn border_left_has_nonzero_width(&self) -> (nonzero: bool)
        ensures
            nonzero == (self@.left.effective != 0),
    {
        self.left.has_nonzero_width()
    }

    /// Whether every property of the group that starts from a fixed value
    /// holds that value.
    pub open spec fn initial_values_hold(model: BorderModel) -> bool {
        &&& model.top.style == BorderStyle::NoLine
        &&& model.right.style == BorderStyle::NoLine
        &&& model.bottom.style == BorderStyle::NoLine
        &&& model.left.style == BorderStyle::NoLine
        &&& model.box_decoration_break == BoxDecorationBreak::Slice
    }

    /// Whether every property of the group that starts from a fixed value
    /// holds that value.
    pub fn has_initial_values(&self) -> (holds: bool)
        ensures
            holds == Self::initial_values_hold(self@),
    {
        self.top.clone_style() == BorderStyle::NoLine
            && self.right.clone_style() == BorderStyle::NoLine
            && self.bottom.clone_style() == BorderStyle::NoLine
            && self.left.clone_style() == BorderStyle::NoLine
            && self.box_decoration_break.get() == BoxDecorationBreak::Slice
    }
}

} // verus!
