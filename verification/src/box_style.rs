//! The box group: `display` with the value it had before adjustment,
//! `contain` with the containment in effect, and floating.

use vstd::prelude::*;
use crate::keyword::{Encoded, Keyword};

verus! {

/// The value of `display`.
#[derive(Clone, Copy, Debug, PartialEq, Eq, Structural)]
pub enum Display {
    /// The keyword `none`: the element generates no box.
    NoBox,
    Contents,
    Inline,
    Block,
    FlowRoot,
    InlineBlock,
    ListItem,
    Table,
    InlineTable,
    Flex,
    InlineFlex,
    Grid,
    InlineGrid,
}

/// The value of `contain`, as a set of flags in one byte.
#[derive(Clone, Copy, Debug, PartialEq, Eq, Structural)]
pub struct Contain {
    pub bits: u8,
}

impl Contain {
    /// No containment.
    pub const NONE: u8 = 0;

    /// Containment of the inline size.
    pub const INLINE_SIZE: u8 = 1;

    /// Containment of the block size.
    pub const BLOCK_SIZE: u8 = 2;

    /// Layout containment.
    pub const LAYOUT: u8 = 4;

    /// Style containment.
    pub const STYLE: u8 = 8;

    /// Paint containment.
    pub const PAINT: u8 = 16;
}

/// The value of `float`.
#[derive(Clone, Copy, Debug, PartialEq, Eq, Structural)]
pub enum Float {
    Left,
    Right,
    /// The keyword `none`.
    NoFloat,
    InlineStart,
    InlineEnd,
}

/// The value of `clear`.
#[derive(Clone, Copy, Debug, PartialEq, Eq, Structural)]
pub enum Clear {
    /// The keyword `none`.
    NoClear,
    Left,
    Right,
    Both,
    InlineStart,
    InlineEnd,
}

impl Keyword for Float {
    open spec fn code(self) -> u8 {
        match self {
            Float::NoFloat => 0,
            Float::Left => 1,
            Float::Right => 2,
            Float::InlineStart => 3,
            Float::InlineEnd => 4,
        }
    }

    proof fn codes_differ(a: Self, b: Self) {
    }

    fn encode(self) -> (code: u8) {
        match self {
            Float::NoFloat => 0,
            Float::Left => 1,
            Float::Right => 2,
            Float::InlineStart => 3,
            Float::InlineEnd => 4,
        }
    }

    fn decode(code: u8) -> (keyword: Option<Self>) {
        match code {
            0 => Some(Float::NoFloat),
            1 => Some(Float::Left),
            2 => Some(Float::Right),
            3 => Some(Float::InlineStart),
            4 => Some(Float::InlineEnd),
            _ => None,
        }
    }
}

impl Keyword for Clear {
    open spec fn code(self) -> u8 {
        match self {
            Clear::NoClear => 0,
            Clear::Left => 1,
            Clear::Right => 2,
            Clear::Both => 3,
            Clear::InlineStart => 4,
            Clear::InlineEnd => 5,
        }
    }

    proof fn codes_differ(a: Self, b: Self) {
    }

    fn encode(self) -> (code: u8) {
        match self {
            Clear::NoClear => 0,
            Clear::Left => 1,
            Clear::Right => 2,
            Clear::Both => 3,
            Clear::InlineStart => 4,
            Clear::InlineEnd => 5,
        }
    }

    fn decode(code: u8) -> (keyword: Option<Self>) {
        match code {
            0 => Some(Clear::NoClear),
            1 => Some(Clear::Left),
            2 => Some(Clear::Right),
            3 => Some(Clear::Both),
            4 => Some(Clear::InlineStart),
            5 => Some(Clear::InlineEnd),
            _ => None,
        }
    }
}

/// What the box group holds.
pub struct BoxModel {
    pub display: Display,
    pub original_display: Display,
    pub contain: Contain,
    pub effective_containment: Contain,
    pub float: Float,
    pub clear: Clear,
}

/// The box group.
#[derive(Clone, Copy)]
pub struct BoxStyle {
    pub display: Display,
    pub original_display: Display,
    pub contain: Contain,
    pub effective_containment: Contain,
    pub float: Encoded<Float>,
    pub clear: Encoded<Clear>,
}

impl View for BoxStyle {
    type V = BoxModel;

    open spec fn view(&self) -> BoxModel {
        BoxModel {
            display: self.display,
            original_display: self.original_display,
            contain: self.contain,
            effective_containment: self.effective_containment,
            float: self.float@,
            clear: self.clear@,
        }
    }
}

impl BoxStyle {
    /// The initial box: inline, not contained, not floating.
    pub open spec fn initial_model() -> BoxModel {
        BoxModel {
            display: Display::Inline,
            original_display: Display::Inline,
            contain: Contain { bits: Contain::NONE },
            effective_containment: Contain { bits: Contain::NONE },
            float: Float::NoFloat,
            clear: Clear::NoClear,
        }
    }

    /// The initial box.
    pub fn initial() -> (style: Self)
        ensures
            style@ == BoxStyle::initial_model(),
    {
        BoxStyle {
            display: Display::Inline,
            original_display: Display::Inline,
            contain: Contain { bits: Contain::NONE },
            effective_containment: Contain { bits: Contain::NONE },
            float: Encoded::new(Float::NoFloat),
            clear: Encoded::new(Clear::NoClear),
        }
    }

    /// Sets `display`, and with it the value that later adjustments start
    /// from.
    pub fn set_display(&mut self, v: Display)
        ensures
            final(self)@ == (BoxModel { display: v, original_display: v, ..old(self)@ }),
    {
        self.display = v;
        self.original_display = v;
    }

    /// Takes `display` over from `other`.
    pub fn copy_display_from(&mut self, other: &Self)
        ensures
            final(self)@ == (BoxModel {
                display: other@.display,
                original_display: other@.display,
                ..old(self)@
            }),
    {
        self.set_display(other.display);
    }

    /// Resets `display` to what `other` holds, as copying does.
    pub fn reset_display(&mut self, other: &Self)
        ensures
            final(self)@ == (BoxModel {
                display: other@.display,
                original_display: other@.display,
                ..old(self)@
            }),
    {
        self.copy_display_from(other)
    }

    /// Sets `display` as adjusted for the element's place in the tree; the
    /// value from before the adjustment stays.
    pub fn set_adjusted_display(&mut self, v: Display, _is_item_or_root: bool)
        ensures
            final(self)@ == (BoxModel { display: v, ..old(self)@ }),
    {
        self.display = v;
    }

    /// The value of `display`.
    pub fn clone_display(&self) -> (v: Display)
        ensures
            v == self@.display,
    {
        self.display
    }

    /// Sets `contain`, and with it the containment in effect.
    pub fn set_contain(&mut self, v: Contain)
        ensures
            final(self)@ == (BoxModel { contain: v, effective_containment: v, ..old(self)@ }),
    {
        self.contain = v;
        self.effective_containment = v;
    }

    /// Takes `contain` over from `other`.
    pub fn copy_contain_from(&mut self, other: &Self)
        ensures
            final(self)@ == (BoxModel {
                contain: other@.contain,
                effective_containment: other@.contain,
                ..old(self)@
            }),
    {
        self.set_contain(other.contain);
    }

    /// Resets `contain` to what `other` holds, as copying does.
    pub fn reset_contain(&mut self, other: &Self)
        ensures
            final(self)@ == (BoxModel {
                contain: other@.contain,
                effective_containment: other@.contain,
                ..old(self)@
            }),
    {
        self.copy_contain_from(other)
    }

    /// The value of `contain`.
    pub fn clone_contain(&self) -> (v: Contain)
        ensures
            v == self@.contain,
    {
        self.contain
    }

    /// Sets the containment in effect alone.
    pub fn set_effective_containment(&mut self, v: Contain)
        ensures
            final(self)@ == (BoxModel { effective_containment: v, ..old(self)@ }),
    {
        self.effective_containment = v;
    }

    /// The value of `effective-containment`.
    pub fn clone_effective_containment(&self) -> (v: Contain)
        ensures
            v == self@.effective_containment,
    {
        self.effective_containment
    }

    /// Stores the keyword as its native number.
    pub fn set_float(&mut self, v: Float)
        ensures
            final(self)@ == (BoxModel { float: v, ..old(self)@ }),
    {
        self.float = Encoded::new(v);
    }

    /// Takes `float` over from `other`.
    pub fn copy_float_from(&mut self, other: &Self)
        ensures
            final(self)@ == (BoxModel { float: other@.float, ..old(self)@ }),
    {
        self.float = other.float;
    }

    /// Resets `float` to what `other` holds, as copying does.
    pub fn reset_float(&mut self, other: &Self)
        ensures
            final(self)@ == (BoxModel { float: other@.float, ..old(self)@ }),
    {
        self.copy_float_from(other)
    }

    /// Decodes the stored number.
    pub fn clone_float(&self) -> (v: Float)
        ensures
            v == self@.float,
    {
        self.float.get()
    }

    /// Stores the keyword as its native number.
    pub fn set_clear(&mut self, v: Clear)
        ensures
            final(self)@ == (BoxModel { clear: v, ..old(self)@ }),
    {
        self.clear = Encoded::new(v);
    }

    /// Takes `clear` over from `other`.
    pub fn copy_clear_from(&mut self, other: &Self)
        ensures
            final(self)@ == (BoxModel { clear: other@.clear, ..old(self)@ }),
    {
        self.clear = other.clear;
    }

    /// Resets `clear` to what `other` holds, as copying does.
    pub fn reset_clear(&mut self, other: &Self)
        ensures
            final(self)@ == (BoxModel { clear: other@.clear, ..old(self)@ }),
    {
        self.copy_clear_from(other)
    }

    /// Decodes the stored number.
    pub fn clone_clear(&self) -> (v: Clear)
        ensures
            v == self@.clear,
    {
        self.clear.get()
    }

    /// Whether every property of the group that starts from a fixed value
    /// holds that value.
    pub open spec fn initial_values_hold(model: BoxModel) -> bool {
        &&& model.display == Display::Inline
        &&& model.contain == (Contain { bits: Contain::NONE })
        &&& model.float == Float::NoFloat
        &&& model.clear == Clear::NoClear
    }

    /// Whether every property of the group that starts from a fixed value
    /// holds that value.
    pub fn has_initial_values(&self) -> (holds: bool)
        ensures
            holds == Self::initial_values_hold(self@),
    {
        self.display == Display::Inline
            && self.contain.bits == Contain::NONE
            && self.float.get() == Float::NoFloat
            && self.clear.get() == Clear::NoClear
    }
}

} // verus!
