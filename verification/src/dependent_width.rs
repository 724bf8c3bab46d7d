//! Widths that depend on a line style: border, outline and column-rule
//! widths. Each keeps the width that was specified, which cascading and
//! inheritance work on, and the effective width that layout reads. Applying
//! a style derives the effective width from the specified one.

use vstd::prelude::*;
use app_units::Au;
use crate::units::{au_of, au_units, units_of};

verus! {

/// A line style that may say that no line is drawn.
pub trait LineStyle: Copy + Sized {
    /// Whether the style is `none` or `hidden`.
    spec fn hides_line(self) -> bool;

    /// Whether the style is `none` or `hidden`.
    fn none_or_hidden(&self) -> (hidden: bool)
        ensures
            hidden == self.hides_line(),
    ;
}

/// The effective width under a style: nothing where the style draws no line,
/// else the specified width.
pub open spec fn effective_width(hidden: bool, specified: int) -> int {
    if hidden {
        0
    } else {
        specified
    }
}

/// What a style and width pair holds, widths in app units.
pub struct WidthModel<S> {
    pub style: S,
    pub specified: int,
    pub effective: int,
}

impl<S: LineStyle> WidthModel<S> {
    /// The pair after `style` was applied.
    pub open spec fn with_style(self, style: S) -> Self {
        WidthModel {
            style,
            specified: self.specified,
            effective: effective_width(style.hides_line(), self.specified),
        }
    }

    /// The pair after `specified` was set: the effective width waits for the
    /// style to be applied again.
    pub open spec fn with_specified(self, specified: int) -> Self {
        WidthModel { style: self.style, specified, effective: self.effective }
    }

    /// The pair after the specified width was copied in and the effective
    /// width derived anew under the pair's own style.
    pub open spec fn with_copied_width(self, specified: int) -> Self {
        WidthModel {
            style: self.style,
            specified,
            effective: effective_width(self.style.hides_line(), specified),
        }
    }
}

/// A style with its specified and effective width.
pub struct DependentWidth<S: LineStyle> {
    style: S,
    specified: i32,
    effective: i32,
}

impl<S: LineStyle> Clone for DependentWidth<S> {
    fn clone(&self) -> (copy: Self)
        ensures
            copy == *self,
    {
        *self
    }
}

impl<S: LineStyle> Copy for DependentWidth<S> {
}

impl<S: LineStyle> View for DependentWidth<S> {
    type V = WidthModel<S>;

    closed spec fn view(&self) -> WidthModel<S> {
        WidthModel {
            style: self.style,
            specified: self.specified as int,
            effective: self.effective as int,
        }
    }
}

impl<S: LineStyle> DependentWidth<S> {
    #[verifier::type_invariant]
    spec fn hidden_line_has_no_width(self) -> bool {
        self.style.hides_line() ==> self.effective == 0
    }

    /// A pair in its canonical state: the effective width derived from
    /// `specified` under `style`.
    pub fn new(style: S, specified: Au) -> (pair: Self)
        ensures
            pair@ == (WidthModel {
                style,
                specified: au_units(specified),
                effective: effective_width(style.hides_line(), au_units(specified)),
            }),
    {
        let specified = units_of(specified);
        let effective = if style.none_or_hidden() { 0 } else { specified };
        DependentWidth { style, specified, effective }
    }

    /// Applies `style` and derives the effective width at once.
    pub fn set_style(&mut self, style: S)
        ensures
            final(self)@ == old(self)@.with_style(style),
    {
        let effective = if style.none_or_hidden() { 0 } else { self.specified };
        *self = DependentWidth { style, specified: self.specified, effective };
    }

    /// Applies the style of `other`.
    pub fn copy_style_from(&mut self, other: &Self)
        ensures
            final(self)@ == old(self)@.with_style(other@.style),
    {
        self.set_style(other.style);
    }

    /// Resets the style to that of `other`: the same as
    /// [`copy_style_from`](Self::copy_style_from).
    pub fn reset_style(&mut self, other: &Self)
        ensures
            final(self)@ == old(self)@.with_style(other@.style),
    {
        self.copy_style_from(other);
    }

    /// The style.
    pub fn clone_style(&self) -> (style: S)
        ensures
            style == self@.style,
    {
        self.style
    }

    /// Sets the specified width. The effective width stays as it is until
    /// the style is applied again.
    pub fn set_width(&mut self, width: Au)
        ensures
            final(self)@ == old(self)@.with_specified(au_units(width)),
    {
        proof {
            use_type_invariant(&*self);
        }
        let specified = units_of(width);
        *self = DependentWidth { style: self.style, specified, effective: self.effective };
    }

    /// Takes over the specified width of `other`, never its effective width,
    /// and derives the effective width anew.
    pub fn copy_width_from(&mut self, other: &Self)
        ensures
            final(self)@ == old(self)@.with_copied_width(other@.specified),
    {
        let specified = other.specified;
        let effective = if self.style.none_or_hidden() { 0 } else { specified };
        *self = DependentWidth { style: self.style, specified, effective };
    }

    /// Resets the width to that of `other`: the same as
    /// [`copy_width_from`](Self::copy_width_from).
    pub fn reset_width(&mut self, other: &Self)
        ensures
            final(self)@ == old(self)@.with_copied_width(other@.specified),
    {
        self.copy_width_from(other);
    }

    /// The effective width: what layout reads.
    pub fn clone_width(&self) -> (width: Au)
        ensures
            au_units(width) == self@.effective,
    {
        au_of(self.effective)
    }

    /// The specified width: what cascading and inheritance work on.
    pub fn specified_width(&self) -> (width: Au)
        ensures
            au_units(width) == self@.specified,
    {
        au_of(self.specified)
    }

    /// Whether a line is drawn at all: the effective width is not zero.
    pub fn has_nonzero_width(&self) -> (nonzero: bool)
        ensures
            nonzero == (self@.effective != 0),
            nonzero ==> !self@.style.hides_line(),
    {
        proof {
            use_type_invariant(self);
        }
        self.effective != 0
    }
}

/// Under a style that draws no line the effective width is zero, whatever
/// was specified and whatever the effective width was before.
pub proof fn hidden_style_clears_width<S: LineStyle>(pair: WidthModel<S>, style: S)
    requires
        style.hides_line(),
    ensures
        pair.with_style(style).effective == 0,
{
}

/// Setting a width and then applying a style that draws a line makes that
/// width effective, whatever the effective width was before.
pub proof fn visible_style_adopts_width<S: LineStyle>(pair: WidthModel<S>, width: int, style: S)
    requires
        !style.hides_line(),
    ensures
        pair.with_specified(width).with_style(style).effective == width,
        pair.with_specified(width).with_style(style).specified == width,
{
}

/// A copied width is the source's specified width, so once a style that
/// draws a line is applied it is effective, whatever the source's effective
/// width was when it was copied.
pub proof fn copied_width_becomes_effective<S: LineStyle>(
    pair: WidthModel<S>,
    source: WidthModel<S>,
    style: S,
)
    requires
        !style.hides_line(),
    ensures
        pair.with_copied_width(source.specified).specified == source.specified,
        pair.with_copied_width(source.specified).with_style(style).effective == source.specified,
{
}

} // verus!
