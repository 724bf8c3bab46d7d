//! The column group: the rule between columns, a style with its dependent
//! width, and how the columns are counted and filled.

use vstd::prelude::*;
use app_units::Au;
use crate::border::{Border, BorderStyle};
use crate::dependent_width::{DependentWidth, WidthModel};
use crate::keyword::{Encoded, Keyword};
use crate::units::{au_of, au_units};

verus! {

/// How many columns there are.
#[derive(Clone, Copy, Debug, PartialEq, Eq, Structural)]
pub enum ColumnCount {
    Auto,
    Integer(u32),
}

/// How content is spread over the columns.
#[derive(Clone, Copy, Debug, PartialEq, Eq, Structural)]
pub enum ColumnFill {
    Balance,
    Auto,
}

impl Keyword for ColumnFill {
    open spec fn code(self) -> u8 {
        match self {
            ColumnFill::Balance => 0,
            ColumnFill::Auto => 1,
        }
    }

    proof fn codes_differ(a: Self, b: Self) {
    }

    fn encode(self) -> (code: u8) {
        match self {
            ColumnFill::Balance => 0,
            ColumnFill::Auto => 1,
        }
    }

    fn decode(code: u8) -> (keyword: Option<Self>) {
        match code {
            0 => Some(ColumnFill::Balance),
            1 => Some(ColumnFill::Auto),
            _ => None,
        }
    }
}

/// What the column group holds.
pub struct ColumnModel {
    pub column_rule: WidthModel<BorderStyle>,
    pub column_count: ColumnCount,
    pub column_fill: ColumnFill,
}

/// The column group.
#[derive(Clone, Copy)]
pub struct Column {
    pub column_rule: DependentWidth<BorderStyle>,
    pub column_count: ColumnCount,
    pub column_fill: Encoded<ColumnFill>,
}

impl View for Column {
    type V = ColumnModel;

    open spec fn view(&self) -> ColumnModel {
        ColumnModel {
            column_rule: self.column_rule@,
            column_count: self.column_count,
            column_fill: self.column_fill@,
        }
    }
}

impl Column {
    /// The initial columns: a rule without a style, the width `medium`
    /// specified and nothing effective; columns counted and balanced
    /// automatically.
    pub open spec fn initial_model() -> ColumnModel {
        ColumnModel {
            column_rule: WidthModel {
                style: BorderStyle::NoLine,
                specified: Border::MEDIUM_WIDTH as int,
                effective: 0,
            },
            column_count: ColumnCount::Auto,
            column_fill: ColumnFill::Balance,
        }
    }

    /// The initial columns.
    pub fn initial() -> (column: Self)
        ensures
            column@ == Column::initial_model(),
    {
        Column {
            column_rule: DependentWidth::new(BorderStyle::NoLine, au_of(Border::MEDIUM_WIDTH)),
            column_count: ColumnCount::Auto,
            column_fill: Encoded::new(ColumnFill::Balance),
        }
    }

    /// Applies a style and derives the effective width at once.
    pub fn set_column_rule_style(&mut self, v: BorderStyle)
        ensures
            final(self)@ == (ColumnModel {
                column_rule: old(self)@.column_rule.with_style(v),
                ..old(self)@
            }),
    {
        self.column_rule.set_style(v);
    }

    /// Applies the `column-rule-style` of `other` and derives the effective width at
    /// once.
    pub fn copy_column_rule_style_from(&mut self, other: &Self)
        ensures
            final(self)@ == (ColumnModel {
                column_rule: old(self)@.column_rule.with_style(other@.column_rule.style),
                ..old(self)@
            }),
    {
        self.set_column_rule_style(other.column_rule.clone_style());
    }

    /// Resets `column-rule-style` to what `other` holds, as copying does.
    pub fn reset_column_rule_style(&mut self, other: &Self)
        ensures
            final(self)@ == (ColumnModel {
                column_rule: old(self)@.column_rule.with_style(other@.column_rule.style),
                ..old(self)@
            }),
    {
        self.copy_column_rule_style_from(other)
    }

    /// The value of `column-rule-style`.
    pub fn clone_column_rule_style(&self) -> (v: BorderStyle)
        ensures
            v == self@.column_rule.style,
    {
        self.column_rule.clone_style()
    }

    /// Sets the specified width; the effective width waits for the style.
    pub fn set_column_rule_width(&mut self, v: Au)
        ensures
            final(self)@ == (ColumnModel {
                column_rule: old(self)@.column_rule.with_specified(au_units(v)),
                ..old(self)@
            }),
    {
        self.column_rule.set_width(v);
    }

    /// Takes over the `column-rule-width` specified in `other`, never its effective
    /// width, and derives the effective width anew.
    pub fn copy_column_rule_width_from(&mut self, other: &Self)
        ensures
            final(self)@ == (ColumnModel {
                column_rule: old(self)@.column_rule.with_copied_width(other@.column_rule.specified),
                ..old(self)@
            }),
    {
        self.column_rule.copy_width_from(&other.column_rule);
    }

    /// Resets `column-rule-width` to what `other` holds, as copying does.
    pub fn reset_column_rule_width(&mut self, other: &Self)
        ensures
            final(self)@ == (ColumnModel {
                column_rule: old(self)@.column_rule.with_copied_width(other@.column_rule.specified),
                ..old(self)@
            }),
    {
        self.copy_column_rule_width_from(other)
    }

    /// The effective width.
    pub fn clone_column_rule_width(&self) -> (v: Au)
        ensures
            au_units(v) == self@.column_rule.effective,
    {
        self.column_rule.clone_width()
    }

    /// Whether the line is drawn at all: its effective width is not zero.
    pub fn column_rule_has_nonzero_width(&self) -> (nonzero: bool)
        ensures
            nonzero == (self@.column_rule.effective != 0),
    {
        self.column_rule.has_nonzero_width()
    }

    /// Sets `column-count`.
    pub fn set_column_count(&mut self, v: ColumnCount)
        ensures
            final(self)@ == (ColumnModel { column_count: v, ..old(self)@ }),
    {
        self.column_count = v;
    }

    /// Takes `column-count` over from `other`.
    pub fn copy_column_count_from(&mut self, other: &Self)
        ensures
            final(self)@ == (ColumnModel { column_count: other@.column_count, ..old(self)@ }),
    {
        self.column_count = other.column_count;
    }

    /// Resets `column-count` to what `other` holds, as copying does.
    pub fn reset_column_count(&mut self, other: &Self)
        ensures
            final(self)@ == (ColumnModel { column_count: other@.column_count, ..old(self)@ }),
    {
        self.copy_column_count_from(other)
    }

    /// The value of `column-count`.
    pub fn clone_column_count(&self) -> (v: ColumnCount)
        ensures
            v == self@.column_count,
    {
        self.column_count
    }

    /// Stores the keyword as its native number.
    pub fn set_column_fill(&mut self, v: ColumnFill)
        ensures
            final(self)@ == (ColumnModel { column_fill: v, ..old(self)@ }),
    {
        self.column_fill = Encoded::new(v);
    }

    /// Takes `column-fill` over from `other`.
    pub fn copy_column_fill_from(&mut self, other: &Self)
        ensures
            final(self)@ == (ColumnModel { column_fill: other@.column_fill, ..old(self)@ }),
    {
        self.column_fill = other.column_fill;
    }

    /// Resets `column-fill` to what `other` holds, as copying does.
    pub fn reset_column_fill(&mut self, other: &Self)
        ensures
            final(self)@ == (ColumnModel { column_fill: other@.column_fill, ..old(self)@ }),
    {
        self.copy_column_fill_from(other)
    }

    /// Decodes the stored number.
    pub fn clone_column_fill(&self) -> (v: ColumnFill)
        ensures
            v == self@.column_fill,
    {
        self.column_fill.get()
    }

    /// Whether every property of the group that starts from a fixed value
    /// holds that value.
    pub open spec fn initial_values_hold(model: ColumnModel) -> bool {
        &&& model.column_rule.style == BorderStyle::NoLine
        &&& model.column_count == ColumnCount::Auto
        &&& model.column_fill == ColumnFill::Balance
    }

    /// Whether every property of the group that starts from a fixed value
    /// holds that value.
    pub fn has_initial_values(&self) -> (holds: bool)
        ensures
            holds == Self::initial_values_hold(self@),
    {
        self.column_rule.clone_style() == BorderStyle::NoLine
            && self.column_count == ColumnCount::Auto
            && self.column_fill.get() == ColumnFill::Balance
    }
}

} // verus!
