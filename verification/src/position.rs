//! The position group: alignment of items, stacking and box sizing.

use vstd::prelude::*;
use crate::keyword::{Encoded, Keyword};

verus! {

/// An alignment keyword with its flags, as one byte.
#[derive(Clone, Copy, Debug, PartialEq, Eq, Structural)]
pub struct AlignFlags {
    pub bits: u8,
}

impl AlignFlags {
    /// The keyword `auto`.
    pub const AUTO: u8 = 0;

    /// The keyword `normal`.
    pub const NORMAL: u8 = 1;

    /// The keyword `start`.
    pub const START: u8 = 2;

    /// The keyword `end`.
    pub const END: u8 = 3;

    /// The keyword `center`.
    pub const CENTER: u8 = 6;

    /// The keyword `stretch`.
    pub const STRETCH: u8 = 11;

    /// The flag `legacy`, which alone is no alignment.
    pub const LEGACY: u8 = 32;
}

/// The value of `justify-items`.
#[derive(Clone, Copy, Debug, PartialEq, Eq, Structural)]
pub struct JustifyItems(pub AlignFlags);

/// `justify-items` as it is stored: what was specified, and what it
/// computes to once `legacy` is resolved against the parent.
#[derive(Clone, Copy, Debug, PartialEq, Eq, Structural)]
pub struct ComputedJustifyItems {
    pub specified: JustifyItems,
    pub computed: JustifyItems,
}

/// The stacking level.
#[derive(Clone, Copy, Debug, PartialEq, Eq, Structural)]
pub enum ZIndex {
    Auto,
    Integer(i32),
}

/// The box that `width` and `height` measure.
#[derive(Clone, Copy, Debug, PartialEq, Eq, Structural)]
pub enum BoxSizing {
    ContentBox,
    BorderBox,
}

impl Keyword for BoxSizing {
    open spec fn code(self) -> u8 {
        match self {
            BoxSizing::ContentBox => 0,
            BoxSizing::BorderBox => 1,
        }
    }

    proof fn codes_differ(a: Self, b: Self) {
    }

    fn encode(self) -> (code: u8) {
        match self {
            BoxSizing::ContentBox => 0,
            BoxSizing::BorderBox => 1,
        }
    }

    fn decode(code: u8) -> (keyword: Option<Self>) {
        match code {
            0 => Some(BoxSizing::ContentBox),
            1 => Some(BoxSizing::BorderBox),
            _ => None,
        }
    }
}

/// What the position group holds.
pub struct PositionModel {
    pub justify_items: ComputedJustifyItems,
    pub z_index: ZIndex,
    pub box_sizing: BoxSizing,
}

/// The position group.
#[derive(Clone, Copy)]
pub struct Position {
    pub justify_items: ComputedJustifyItems,
    pub z_index: ZIndex,
    pub box_sizing: Encoded<BoxSizing>,
}

impl View for Position {
    type V = PositionModel;

    open spec fn view(&self) -> PositionModel {
        PositionModel {
            justify_items: self.justify_items,
            z_index: self.z_index,
            box_sizing: self.box_sizing@,
        }
    }
}

impl Position {
    /// The initial position: `justify-items` is `legacy` as specified and
    /// `normal` as computed.
    pub open spec fn initial_model() -> PositionModel {
        PositionModel {
            justify_items: ComputedJustifyItems {
                specified: JustifyItems(AlignFlags { bits: AlignFlags::LEGACY }),
                computed: JustifyItems(AlignFlags { bits: AlignFlags::NORMAL }),
            },
            z_index: ZIndex::Auto,
            box_sizing: BoxSizing::ContentBox,
        }
    }

    /// The initial position.
    pub fn initial() -> (position: Self)
        ensures
            position@ == Position::initial_model(),
    {
        Position {
            justify_items: ComputedJustifyItems {
                specified: JustifyItems(AlignFlags { bits: AlignFlags::LEGACY }),
                computed: JustifyItems(AlignFlags { bits: AlignFlags::NORMAL }),
            },
            z_index: ZIndex::Auto,
            box_sizing: Encoded::new(BoxSizing::ContentBox),
        }
    }

    /// Sets what `justify-items` computes to. The bare flag `legacy` is no
    /// computed value and is not accepted.
    pub fn set_computed_justify_items(&mut self, v: JustifyItems)
        requires
            v.0.bits != AlignFlags::LEGACY,
        ensures
            final(self)@ == (PositionModel {
                justify_items: ComputedJustifyItems {
                    specified: old(self)@.justify_items.specified,
                    computed: v,
                },
                ..old(self)@
            }),
    {
        self.justify_items.computed = v;
    }

    /// Sets `justify-items`.
    pub fn set_justify_items(&mut self, v: ComputedJustifyItems)
        ensures
            final(self)@ == (PositionModel { justify_items: v, ..old(self)@ }),
    {
        self.justify_items = v;
    }

    /// Takes `justify-items` over from `other`.
    pub fn copy_justify_items_from(&mut self, other: &Self)
        ensures
            final(self)@ == (PositionModel { justify_items: other@.justify_items, ..old(self)@ }),
    {
        self.justify_items = other.justify_items;
    }

    /// Resets `justify-items` to what `other` holds, as copying does.
    pub fn reset_justify_items(&mut self, other: &Self)
        ensures
            final(self)@ == (PositionModel { justify_items: other@.justify_items, ..old(self)@ }),
    {
        self.copy_justify_items_from(other)
    }

    /// The value of `justify-items`.
    pub fn clone_justify_items(&self) -> (v: ComputedJustifyItems)
        ensures
            v == self@.justify_items,
    {
        self.justify_items
    }

    /// Sets `z-index`.
    pub fn set_z_index(&mut self, v: ZIndex)
        ensures
            final(self)@ == (PositionModel { z_index: v, ..old(self)@ }),
    {
        self.z_index = v;
    }

    /// Takes `z-index` over from `other`.
    pub fn copy_z_index_from(&mut self, other: &Self)
        ensures
            final(self)@ == (PositionModel { z_index: other@.z_index, ..old(self)@ }),
    {
        self.z_index = other.z_index;
    }

    /// Resets `z-index` to what `other` holds, as copying does.
    pub fn reset_z_index(&mut self, other: &Self)
        ensures
            final(self)@ == (PositionModel { z_index: other@.z_index, ..old(self)@ }),
    {
        self.copy_z_index_from(other)
    }

    /// The value of `z-index`.
    pub fn clone_z_index(&self) -> (v: ZIndex)
        ensures
            v == self@.z_index,
    {
        self.z_index
    }

    /// Stores the keyword as its native number.
    pub fn set_box_sizing(&mut self, v: BoxSizing)
        ensures
            final(self)@ == (PositionModel { box_sizing: v, ..old(self)@ }),
    {
        self.box_sizing = Encoded::new(v);
    }

    /// Takes `box-sizing` over from `other`.
    pub fn copy_box_sizing_from(&mut self, other: &Self)
        ensures
            final(self)@ == (PositionModel { box_sizing: other@.box_sizing, ..old(self)@ }),
    {
        self.box_sizing = other.box_sizing;
    }

    /// Resets `box-sizing` to what `other` holds, as copying does.
    pub fn reset_box_sizing(&mut self, other: &Self)
        ensures
            final(self)@ == (PositionModel { box_sizing: other@.box_sizing, ..old(self)@ }),
    {
        self.copy_box_sizing_from(other)
    }

    /// Decodes the stored number.
    pub fn clone_box_sizing(&self) -> (v: BoxSizing)
        ensures
            v == self@.box_sizing,
    {
        self.box_sizing.get()
    }

    /// Whether every property of the group that starts from a fixed value
    /// holds that value.
    pub open spec fn initial_values_hold(model: PositionModel) -> bool {
        &&& model.justify_items == Position::initial_model().justify_items
        &&& model.z_index == ZIndex::Auto
        &&& model.box_sizing == BoxSizing::ContentBox
    }

    /// Whether every property of the group that starts from a fixed value
    /// holds that value.
    pub fn has_initial_values(&self) -> (holds: bool)
        ensures
            holds == Self::initial_values_hold(self@),
    {
        self.justify_items.specified.0.bits == AlignFlags::LEGACY
            && self.justify_items.computed.0.bits == AlignFlags::NORMAL
            && self.z_index == ZIndex::Auto
            && self.box_sizing.get() == BoxSizing::ContentBox
    }
}

} // verus!
