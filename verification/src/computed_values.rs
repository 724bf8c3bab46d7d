//! The computed style of an element: a handle to the group of every
//! category, the custom properties, and what else the cascade decided. A
//! style is built, sealed, and from then on shared and read.

use vstd::prelude::*;
use std::collections::HashMap;
use servo_arc::Arc;
use crate::background::Background;
use crate::border::Border;
use crate::box_style::BoxStyle;
use crate::column::Column;
use crate::counters::Counters;
use crate::font::Font;
use crate::inherited_ui::InheritedUI;
use crate::margin::Margin;
use crate::outline::Outline;
use crate::padding::Padding;
use crate::position::Position;
use crate::svg::Svg;
use crate::ui::UI;
use crate::box_style::Display;
use crate::defaults::DefaultStyles;
use crate::device::Zoom;
use crate::pseudo::{PseudoElement, PseudoStyleType};
use crate::shared::{
    arc_seal, arc_share, arc_values, sealed_values, sharers_are_one_instance, Handle, StyleStruct,
};
use crate::style_group::Document;
use crate::values::Atom;

verus! {

broadcast use vstd::std_specs::hash::group_hash_axioms;

/// The custom properties of an element: values by name. The order in which
/// they were declared plays no part.
pub struct ComputedCustomProperties {
    properties: HashMap<u32, u32>,
}

impl View for ComputedCustomProperties {
    type V = Map<u32, u32>;

    /// The value of every declared name, names and values by their numbers.
    closed spec fn view(&self) -> Map<u32, u32> {
        self.properties@
    }
}

impl Clone for ComputedCustomProperties {
    fn clone(&self) -> (copy: Self)
        ensures
            copy@ == self@,
    {
        ComputedCustomProperties { properties: self.properties.clone() }
    }
}

impl ComputedCustomProperties {
    /// No custom property.
    pub fn new() -> (properties: Self)
        ensures
            properties@ == Map::<u32, u32>::empty(),
    {
        ComputedCustomProperties { properties: HashMap::new() }
    }

    /// Declares `name` with `value`, in place of the value it had.
    pub fn insert(&mut self, name: Atom, value: u32)
        ensures
            final(self)@ == old(self)@.insert(name.id, value),
    {
        self.properties.insert(name.id, value);
    }

    /// The value of `name`; `None` exactly where the name is not declared.
    pub fn get(&self, name: Atom) -> (value: Option<u32>)
        ensures
            value == (if self@.contains_key(name.id) {
                Some(self@[name.id])
            } else {
                None
            }),
    {
        match self.properties.get(&name.id) {
            Some(value) => Some(*value),
            None => None,
        }
    }

    /// How many names are declared.
    pub fn len(&self) -> (len: usize)
        ensures
            len == self@.len(),
    {
        self.properties.len()
    }
}

/// The writing mode of an element, as a set of flags in one byte.
#[derive(Clone, Copy, Debug, PartialEq, Eq, Structural)]
pub struct WritingMode {
    pub bits: u8,
}

impl WritingMode {
    /// No flag: horizontal, left to right.
    pub fn empty() -> (mode: WritingMode)
        ensures
            mode.bits == 0,
    {
        WritingMode { bits: 0 }
    }
}

/// What the cascade noted about a style, as a set of flags.
#[derive(Clone, Copy, Debug, PartialEq, Eq, Structural)]
pub struct ComputedValueFlags {
    pub bits: u32,
}

impl ComputedValueFlags {
    /// No flag.
    pub fn empty() -> (flags: ComputedValueFlags)
        ensures
            flags.bits == 0,
    {
        ComputedValueFlags { bits: 0 }
    }
}

/// A link to the chain of rules that produced a style: the number of its
/// node in the cascade's rule tree.
#[derive(Clone, Copy, Debug, PartialEq, Eq, Structural)]
pub struct StrongRuleNode {
    pub id: u64,
}

/// A style while it is built: every part can still be written.
pub struct ComputedValuesInner {
    pub custom_properties: ComputedCustomProperties,
    pub writing_mode: WritingMode,
    pub effective_zoom: Zoom,
    pub flags: ComputedValueFlags,
    pub rules: Option<StrongRuleNode>,
    pub visited_style: Option<Box<ComputedValues>>,
    pub background: Handle<Background>,
    pub border: Handle<Border>,
    pub box_style: Handle<BoxStyle>,
    pub column: Handle<Column>,
    pub counters: Handle<Counters>,
    pub font: Handle<Font>,
    pub inherited_ui: Handle<InheritedUI>,
    pub margin: Handle<Margin>,
    pub outline: Handle<Outline>,
    pub padding: Handle<Padding>,
    pub position: Handle<Position>,
    pub svg: Handle<Svg>,
    pub ui: Handle<UI>,
}

/// A sealed style: the parts, and the tag that says whose style it is. It
/// has no copy: a sealed style is shared through its pointer.
pub struct ComputedValues {
    pub inner: ComputedValuesInner,
    pub pseudo_type: PseudoStyleType,
}

impl ComputedValuesInner {
    /// The style's invariant: every handle points to a valid group of its
    /// category, and so in the visited style.
    pub open spec fn wf(&self) -> bool
        decreases self,
    {
        &&& self.background.wf()
        &&& self.border.wf()
        &&& self.box_style.wf()
        &&& self.column.wf()
        &&& self.counters.wf()
        &&& self.font.wf()
        &&& self.inherited_ui.wf()
        &&& self.margin.wf()
        &&& self.outline.wf()
        &&& self.padding.wf()
        &&& self.position.wf()
        &&& self.svg.wf()
        &&& self.ui.wf()
        &&& match self.visited_style {
            Some(visited) => visited.inner.wf(),
            None => true,
        }
    }

    /// Whether two styles hold the same values in every part. Which groups
    /// they share plays no part.
    pub open spec fn same_values(&self, other: &Self) -> bool
        decreases self,
    {
        &&& self.custom_properties@ == other.custom_properties@
        &&& self.writing_mode == other.writing_mode
        &&& self.effective_zoom == other.effective_zoom
        &&& self.flags == other.flags
        &&& self.rules == other.rules
        &&& self.background@ == other.background@
        &&& self.border@ == other.border@
        &&& self.box_style@ == other.box_style@
        &&& self.column@ == other.column@
        &&& self.counters@ == other.counters@
        &&& self.font@ == other.font@
        &&& self.inherited_ui@ == other.inherited_ui@
        &&& self.margin@ == other.margin@
        &&& self.outline@ == other.outline@
        &&& self.padding@ == other.padding@
        &&& self.position@ == other.position@
        &&& self.svg@ == other.svg@
        &&& self.ui@ == other.ui@
        &&& match (self.visited_style, other.visited_style) {
            (Some(a), Some(b)) => a.pseudo_type == b.pseudo_type && a.inner.same_values(&b.inner),
            (None, None) => true,
            _ => false,
        }
    }

    /// Assembles a style from its parts.
    pub fn new(
        custom_properties: ComputedCustomProperties,
        writing_mode: WritingMode,
        effective_zoom: Zoom,
        flags: ComputedValueFlags,
        rules: Option<StrongRuleNode>,
        visited_style: Option<Box<ComputedValues>>,
        background: Handle<Background>,
        border: Handle<Border>,
        box_style: Handle<BoxStyle>,
        column: Handle<Column>,
        counters: Handle<Counters>,
        font: Handle<Font>,
        inherited_ui: Handle<InheritedUI>,
        margin: Handle<Margin>,
        outline: Handle<Outline>,
        padding: Handle<Padding>,
        position: Handle<Position>,
        svg: Handle<Svg>,
        ui: Handle<UI>,
    ) -> (style: Self)
        ensures
            style == (ComputedValuesInner {
                custom_properties,
                writing_mode,
                effective_zoom,
                flags,
                rules,
                visited_style,
                background,
                border,
                box_style,
                column,
                counters,
                font,
                inherited_ui,
                margin,
                outline,
                padding,
                position,
                svg,
                ui,
            }),
    {
        ComputedValuesInner {
            custom_properties,
            writing_mode,
            effective_zoom,
            flags,
            rules,
            visited_style,
            background,
            border,
            box_style,
            column,
            counters,
            font,
            inherited_ui,
            margin,
            outline,
            padding,
            position,
            svg,
            ui,
        }
    }

    /// Seals the style with the tag of `pseudo`, or with that of an element
    /// proper.
    pub fn into_values(self, pseudo: Option<&PseudoElement>) -> (values: ComputedValues)
        ensures
            values.inner == self,
            values.pseudo_type == (match pseudo {
                Some(p) => p.tag(),
                None => PseudoStyleType::NotPseudo,
            }),
    {
        let pseudo_type = match pseudo {
            Some(p) => p.pseudo_type(),
            None => PseudoStyleType::NotPseudo,
        };
        ComputedValues { inner: self, pseudo_type }
    }

    /// Seals the style and puts it behind a pointer, to be shared.
    pub fn to_outer(self, pseudo: Option<&PseudoElement>) -> (values: Arc<ComputedValues>)
        ensures
            sealed_values(values).inner == self,
            sealed_values(values).pseudo_type == (match pseudo {
                Some(p) => p.tag(),
                None => PseudoStyleType::NotPseudo,
            }),
    {
        arc_seal(self.into_values(pseudo))
    }

    /// Whether the value of `content` would leave a pseudo-element
    /// unrendered.
    pub fn ineffective_content_property(&self) -> (ineffective: bool)
        requires
            self.wf(),
        ensures
            ineffective == !(self.counters@.content is Items),
    {
        self.get_counters().ineffective_content_property()
    }

    /// The visited style, if any.
    pub fn visited_style(&self) -> (visited: Option<&ComputedValues>)
        ensures
            match (visited, self.visited_style) {
                (Some(v), Some(held)) => *v == *held,
                (None, None) => true,
                _ => false,
            },
    {
        match &self.visited_style {
            Some(visited) => Some(&**visited),
            None => None,
        }
    }

    /// Another handle to the background group. The group is not copied: the
    /// handle shares it with the style's own.
    pub fn clone_background(&self) -> (handle: Handle<Background>)
        ensures
            handle@ == self.background@,
            self.background.wf() ==> handle.wf(),
            handle.shares_with(&self.background),
    {
        self.background.share()
    }

    /// Reads the background group.
    pub fn get_background(&self) -> (group: &Background)
        requires
            self.wf(),
        ensures
            group@ == self.background@,
            group.valid(),
    {
        self.background.get()
    }

    /// Opens the background group for writing; a group that is shared is
    /// copied first.
    pub fn mutate_background(&mut self) -> (group: &mut Background)
        requires
            old(self).wf(),
        ensures
            group@ == old(self).background@,
            group.valid(),
            final(self).background@ == final(group)@,
            *final(self) == (ComputedValuesInner {
                background: final(self).background,
                ..*old(self)
            }),
            final(group).valid() ==> final(self).wf(),
    {
        self.background.mutate()
    }

    /// Another handle to the border group. The group is not copied: the
    /// handle shares it with the style's own.
    pub fn clone_border(&self) -> (handle: Handle<Border>)
        ensures
            handle@ == self.border@,
            self.border.wf() ==> handle.wf(),
            handle.shares_with(&self.border),
    {
        self.border.share()
    }

    /// Reads the border group.
    pub fn get_border(&self) -> (group: &Border)
        requires
            self.wf(),
        ensures
            group@ == self.border@,
            group.valid(),
    {
        self.border.get()
    }

    /// Opens the border group for writing; a group that is shared is
    /// copied first.
    pub fn mutate_border(&mut self) -> (group: &mut Border)
        requires
            old(self).wf(),
        ensures
            group@ == old(self).border@,
            group.valid(),
            final(self).border@ == final(group)@,
            *final(self) == (ComputedValuesInner { border: final(self).border, ..*old(self) }),
            final(group).valid() ==> final(self).wf(),
    {
        self.border.mutate()
    }

    /// Another handle to the box group. The group is not copied: the
    /// handle shares it with the style's own.
    pub fn clone_box(&self) -> (handle: Handle<BoxStyle>)
        ensures
            handle@ == self.box_style@,
            self.box_style.wf() ==> handle.wf(),
            handle.shares_with(&self.box_style),
    {
        self.box_style.share()
    }

    /// Reads the box group.
    pub fn get_box(&self) -> (group: &BoxStyle)
        requires
            self.wf(),
        ensures
            group@ == self.box_style@,
            group.valid(),
    {
        self.box_style.get()
    }

    /// Opens the box group for writing; a group that is shared is
    /// copied first.
    pub fn mutate_box(&mut self) -> (group: &mut BoxStyle)
        requires
            old(self).wf(),
        ensures
            group@ == old(self).box_style@,
            group.valid(),
            final(self).box_style@ == final(group)@,
            *final(self) == (ComputedValuesInner {
                box_style: final(self).box_style,
                ..*old(self)
            }),
            final(group).valid() ==> final(self).wf(),
    {
        self.box_style.mutate()
    }

    /// Another handle to the column group. The group is not copied: the
    /// handle shares it with the style's own.
    pub fn clone_column(&self) -> (handle: Handle<Column>)
        ensures
            handle@ == self.column@,
            self.column.wf() ==> handle.wf(),
            handle.shares_with(&self.column),
    {
        self.column.share()
    }

    /// Reads the column group.
    pub fn get_column(&self) -> (group: &Column)
        requires
            self.wf(),
        ensures
            group@ == self.column@,
            group.valid(),
    {
        self.column.get()
    }

    /// Opens the column group for writing; a group that is shared is
    /// copied first.
    pub fn mutate_column(&mut self) -> (group: &mut Column)
        requires
            old(self).wf(),
        ensures
            group@ == old(self).column@,
            group.valid(),
            final(self).column@ == final(group)@,
            *final(self) == (ComputedValuesInner { column: final(self).column, ..*old(self) }),
            final(group).valid() ==> final(self).wf(),
    {
        self.column.mutate()
    }

    /// Another handle to the counters group. The group is not copied: the
    /// handle shares it with the style's own.
    pub fn clone_counters(&self) -> (handle: Handle<Counters>)
        ensures
            handle@ == self.counters@,
            self.counters.wf() ==> handle.wf(),
            handle.shares_with(&self.counters),
    {
        self.counters.share()
    }

    /// Reads the counters group.
    pub fn get_counters(&self) -> (group: &Counters)
        requires
            self.wf(),
        ensures
            group@ == self.counters@,
            group.valid(),
    {
        self.counters.get()
    }

    /// Opens the counters group for writing; a group that is shared is
    /// copied first.
    pub fn mutate_counters(&mut self) -> (group: &mut Counters)
        requires
            old(self).wf(),
        ensures
            group@ == old(self).counters@,
            group.valid(),
            final(self).counters@ == final(group)@,
            *final(self) == (ComputedValuesInner { counters: final(self).counters, ..*old(self) }),
            final(group).valid() ==> final(self).wf(),
    {
        self.counters.mutate()
    }

    /// Another handle to the font group. The group is not copied: the
    /// handle shares it with the style's own.
    pub fn clone_font(&self) -> (handle: Handle<Font>)
        ensures
            handle@ == self.font@,
            self.font.wf() ==> handle.wf(),
            handle.shares_with(&self.font),
    {
        self.font.share()
    }

    /// Reads the font group.
    pub fn get_font(&self) -> (group: &Font)
        requires
            self.wf(),
        ensures
            group@ == self.font@,
            group.valid(),
    {
        self.font.get()
    }

    /// Opens the font group for writing; a group that is shared is
    /// copied first.
    pub fn mutate_font(&mut self) -> (group: &mut Font)
        requires
            old(self).wf(),
        ensures
            group@ == old(self).font@,
            group.valid(),
            final(self).font@ == final(group)@,
            *final(self) == (ComputedValuesInner { font: final(self).font, ..*old(self) }),
            final(group).valid() ==> final(self).wf(),
    {
        self.font.mutate()
    }

    /// Another handle to the inherited ui group. The group is not copied: the
    /// handle shares it with the style's own.
    pub fn clone_inherited_ui(&self) -> (handle: Handle<InheritedUI>)
        ensures
            handle@ == self.inherited_ui@,
            self.inherited_ui.wf() ==> handle.wf(),
            handle.shares_with(&self.inherited_ui),
    {
        self.inherited_ui.share()
    }

    /// Reads the inherited ui group.
    pub fn get_inherited_ui(&self) -> (group: &InheritedUI)
        requires
            self.wf(),
        ensures
            group@ == self.inherited_ui@,
            group.valid(),
    {
        self.inherited_ui.get()
    }

    /// Opens the inherited ui group for writing; a group that is shared is
    /// copied first.
    pub fn mutate_inherited_ui(&mut self) -> (group: &mut InheritedUI)
        requires
            old(self).wf(),
        ensures
            group@ == old(self).inherited_ui@,
            group.valid(),
            final(self).inherited_ui@ == final(group)@,
            *final(self) == (ComputedValuesInner {
                inherited_ui: final(self).inherited_ui,
                ..*old(self)
            }),
            final(group).valid() ==> final(self).wf(),
    {
        self.inherited_ui.mutate()
    }

    /// Another handle to the margin group. The group is not copied: the
    /// handle shares it with the style's own.
    pub fn clone_margin(&self) -> (handle: Handle<Margin>)
        ensures
            handle@ == self.margin@,
            self.margin.wf() ==> handle.wf(),
            handle.shares_with(&self.margin),
    {
        self.margin.share()
    }

    /// Reads the margin group.
    pub fn get_margin(&self) -> (group: &Margin)
        requires
            self.wf(),
        ensures
            group@ == self.margin@,
            group.valid(),
    {
        self.margin.get()
    }

    /// Opens the margin group for writing; a group that is shared is
    /// copied first.
    pub fn mutate_margin(&mut self) -> (group: &mut Margin)
        requires
            old(self).wf(),
        ensures
            group@ == old(self).margin@,
            group.valid(),
            final(self).margin@ == final(group)@,
            *final(self) == (ComputedValuesInner { margin: final(self).margin, ..*old(self) }),
            final(group).valid() ==> final(self).wf(),
    {
        self.margin.mutate()
    }

    /// Another handle to the outline group. The group is not copied: the
    /// handle shares it with the style's own.
    pub fn clone_outline(&self) -> (handle: Handle<Outline>)
        ensures
            handle@ == self.outline@,
            self.outline.wf() ==> handle.wf(),
            handle.shares_with(&self.outline),
    {
        self.outline.share()
    }

    /// Reads the outline group.
    pub fn get_outline(&self) -> (group: &Outline)
        requires
            self.wf(),
        ensures
            group@ == self.outline@,
            group.valid(),
    {
        self.outline.get()
    }

    /// Opens the outline group for writing; a group that is shared is
    /// copied first.
    pub fn mutate_outline(&mut self) -> (group: &mut Outline)
        requires
            old(self).wf(),
        ensures
            group@ == old(self).outline@,
            group.valid(),
            final(self).outline@ == final(group)@,
            *final(self) == (ComputedValuesInner { outline: final(self).outline, ..*old(self) }),
            final(group).valid() ==> final(self).wf(),
    {
        self.outline.mutate()
    }

    /// Another handle to the padding group. The group is not copied: the
    /// handle shares it with the style's own.
    pub fn clone_padding(&self) -> (handle: Handle<Padding>)
        ensures
            handle@ == self.padding@,
            self.padding.wf() ==> handle.wf(),
            handle.shares_with(&self.padding),
    {
        self.padding.share()
    }

    /// Reads the padding group.
    pub fn get_padding(&self) -> (group: &Padding)
        requires
            self.wf(),
        ensures
            group@ == self.padding@,
            group.valid(),
    {
        self.padding.get()
    }

    /// Opens the padding group for writing; a group that is shared is
    /// copied first.
    pub fn mutate_padding(&mut self) -> (group: &mut Padding)
        requires
            old(self).wf(),
        ensures
            group@ == old(self).padding@,
            group.valid(),
            final(self).padding@ == final(group)@,
            *final(self) == (ComputedValuesInner { padding: final(self).padding, ..*old(self) }),
            final(group).valid() ==> final(self).wf(),
    {
        self.padding.mutate()
    }

    /// Another handle to the position group. The group is not copied: the
    /// handle shares it with the style's own.
    pub fn clone_position(&self) -> (handle: Handle<Position>)
        ensures
            handle@ == self.position@,
            self.position.wf() ==> handle.wf(),
            handle.shares_with(&self.position),
    {
        self.position.share()
    }

    /// Reads the position group.
    pub fn get_position(&self) -> (group: &Position)
        requires
            self.wf(),
        ensures
            group@ == self.position@,
            group.valid(),
    {
        self.position.get()
    }

    /// Opens the position group for writing; a group that is shared is
    /// copied first.
    pub fn mutate_position(&mut self) -> (group: &mut Position)
        requires
            old(self).wf(),
        ensures
            group@ == old(self).position@,
            group.valid(),
            final(self).position@ == final(group)@,
            *final(self) == (ComputedValuesInner { position: final(self).position, ..*old(self) }),
            final(group).valid() ==> final(self).wf(),
    {
        self.position.mutate()
    }

    /// Another handle to the svg group. The group is not copied: the
    /// handle shares it with the style's own.
    pub fn clone_svg(&self) -> (handle: Handle<Svg>)
        ensures
            handle@ == self.svg@,
            self.svg.wf() ==> handle.wf(),
            handle.shares_with(&self.svg),
    {
        self.svg.share()
    }

    /// Reads the svg group.
    pub fn get_svg(&self) -> (group: &Svg)
        requires
            self.wf(),
        ensures
            group@ == self.svg@,
            group.valid(),
    {
        self.svg.get()
    }

    /// Opens the svg group for writing; a group that is shared is
    /// copied first.
    pub fn mutate_svg(&mut self) -> (group: &mut Svg)
        requires
            old(self).wf(),
        ensures
            group@ == old(self).svg@,
            group.valid(),
            final(self).svg@ == final(group)@,
            *final(self) == (ComputedValuesInner { svg: final(self).svg, ..*old(self) }),
            final(group).valid() ==> final(self).wf(),
    {
        self.svg.mutate()
    }

    /// Another handle to the ui group. The group is not copied: the
    /// handle shares it with the style's own.
    pub fn clone_ui(&self) -> (handle: Handle<UI>)
        ensures
            handle@ == self.ui@,
            self.ui.wf() ==> handle.wf(),
            handle.shares_with(&self.ui),
    {
        self.ui.share()
    }

    /// Reads the ui group.
    pub fn get_ui(&self) -> (group: &UI)
        requires
            self.wf(),
        ensures
            group@ == self.ui@,
            group.valid(),
    {
        self.ui.get()
    }

    /// Opens the ui group for writing; a group that is shared is
    /// copied first.
    pub fn mutate_ui(&mut self) -> (group: &mut UI)
        requires
            old(self).wf(),
        ensures
            group@ == old(self).ui@,
            group.valid(),
            final(self).ui@ == final(group)@,
            *final(self) == (ComputedValuesInner { ui: final(self).ui, ..*old(self) }),
            final(group).valid() ==> final(self).wf(),
    {
        self.ui.mutate()
    }

    /// Whether the style is made of the initial values for `document`
    /// alone: the default group of every category and nothing else.
    pub open spec fn is_default_for(&self, document: Document) -> bool {
        &&& self.custom_properties@ == Map::<u32, u32>::empty()
        &&& self.writing_mode.bits == 0
        &&& self.effective_zoom.value == Zoom::ONE
        &&& self.flags.bits == 0
        &&& self.rules is None
        &&& self.visited_style is None
        &&& self.background@ == <Background as StyleStruct>::initial_model(Some(document))
        &&& self.border@ == <Border as StyleStruct>::initial_model(Some(document))
        &&& self.box_style@ == <BoxStyle as StyleStruct>::initial_model(Some(document))
        &&& self.column@ == <Column as StyleStruct>::initial_model(Some(document))
        &&& self.counters@ == <Counters as StyleStruct>::initial_model(Some(document))
        &&& self.font@ == <Font as StyleStruct>::initial_model(Some(document))
        &&& self.inherited_ui@ == <InheritedUI as StyleStruct>::initial_model(Some(document))
        &&& self.margin@ == <Margin as StyleStruct>::initial_model(Some(document))
        &&& self.outline@ == <Outline as StyleStruct>::initial_model(Some(document))
        &&& self.padding@ == <Padding as StyleStruct>::initial_model(Some(document))
        &&& self.position@ == <Position as StyleStruct>::initial_model(Some(document))
        &&& self.svg@ == <Svg as StyleStruct>::initial_model(Some(document))
        &&& self.ui@ == <UI as StyleStruct>::initial_model(Some(document))
    }

    /// Whether every property that starts from a fixed value holds that
    /// value. Widths that depend on a style and the font size are left out:
    /// what they start from is not what is read back.
    pub open spec fn initial_values_hold(&self) -> bool {
        &&& Background::initial_values_hold(self.background@)
        &&& Border::initial_values_hold(self.border@)
        &&& BoxStyle::initial_values_hold(self.box_style@)
        &&& Column::initial_values_hold(self.column@)
        &&& Counters::initial_values_hold(self.counters@)
        &&& Font::initial_values_hold(self.font@)
        &&& InheritedUI::initial_values_hold(self.inherited_ui@)
        &&& Margin::initial_values_hold(self.margin@)
        &&& Outline::initial_values_hold(self.outline@)
        &&& Padding::initial_values_hold(self.padding@)
        &&& Position::initial_values_hold(self.position@)
        &&& Svg::initial_values_hold(self.svg@)
        &&& UI::initial_values_hold(self.ui@)
    }

    /// Whether the style shares the group of every category with `other`,
    /// and so in the visited style: every handle of the one points to the
    /// same group in memory as the handle of the other.
    pub open spec fn shares_groups_with(&self, other: &Self) -> bool
        decreases self,
    {
        &&& self.background.shares_with(&other.background)
        &&& self.border.shares_with(&other.border)
        &&& self.box_style.shares_with(&other.box_style)
        &&& self.column.shares_with(&other.column)
        &&& self.counters.shares_with(&other.counters)
        &&& self.font.shares_with(&other.font)
        &&& self.inherited_ui.shares_with(&other.inherited_ui)
        &&& self.margin.shares_with(&other.margin)
        &&& self.outline.shares_with(&other.outline)
        &&& self.padding.shares_with(&other.padding)
        &&& self.position.shares_with(&other.position)
        &&& self.svg.shares_with(&other.svg)
        &&& self.ui.shares_with(&other.ui)
        &&& match (self.visited_style, other.visited_style) {
            (Some(a), Some(b)) => a.inner.shares_groups_with(&b.inner),
            (None, None) => true,
            _ => false,
        }
    }

    /// Whether the style holds, for every category whose initial values do
    /// not depend on the document, the group that `defaults` keeps: the
    /// same group in memory, not a copy.
    pub open spec fn holds_kept_groups_of(&self, defaults: &DefaultStyles) -> bool {
        &&& self.background.shares_with(&defaults.background)
        &&& self.border.shares_with(&defaults.border)
        &&& self.box_style.shares_with(&defaults.box_style)
        &&& self.column.shares_with(&defaults.column)
        &&& self.counters.shares_with(&defaults.counters)
        &&& self.inherited_ui.shares_with(&defaults.inherited_ui)
        &&& self.margin.shares_with(&defaults.margin)
        &&& self.outline.shares_with(&defaults.outline)
        &&& self.padding.shares_with(&defaults.padding)
        &&& self.position.shares_with(&defaults.position)
        &&& self.svg.shares_with(&defaults.svg)
        &&& self.ui.shares_with(&defaults.ui)
    }

    /// A copy of the style that shares every group with it.
    fn duplicate(&self) -> (copy: Self)
        ensures
            self.same_values(&copy),
            self.wf() ==> copy.wf(),
            copy.shares_groups_with(self),
        decreases self,
    {
        let visited_style = match &self.visited_style {
            Some(visited) => Some(
                Box::new(
                    ComputedValues {
                        inner: visited.inner.duplicate(),
                        pseudo_type: visited.pseudo_type,
                    },
                ),
            ),
            None => None,
        };
        ComputedValuesInner {
            custom_properties: self.custom_properties.clone(),
            writing_mode: self.writing_mode,
            effective_zoom: self.effective_zoom,
            flags: self.flags,
            rules: self.rules,
            visited_style,
            background: self.background.share(),
            border: self.border.share(),
            box_style: self.box_style.share(),
            column: self.column.share(),
            counters: self.counters.share(),
            font: self.font.share(),
            inherited_ui: self.inherited_ui.share(),
            margin: self.margin.share(),
            outline: self.outline.share(),
            padding: self.padding.share(),
            position: self.position.share(),
            svg: self.svg.share(),
            ui: self.ui.share(),
        }
    }
}

impl std::ops::Deref for ComputedValues {
    type Target = ComputedValuesInner;

    /// The parts of the style.
    fn deref(&self) -> (inner: &ComputedValuesInner)
        ensures
            *inner == self.inner,
    {
        &self.inner
    }
}

impl Clone for ComputedValuesInner {
    /// A copy of the style while it is built. No group is copied: the two
    /// share every group until one of them writes to it.
    fn clone(&self) -> (copy: Self)
        ensures
            self.same_values(&copy),
            self.wf() ==> copy.wf(),
            copy.shares_groups_with(self),
    {
        self.duplicate()
    }
}

/// Whether `display` went from `none` to anything else.
pub open spec fn display_changed_from_none(old_display: Display, new_display: Display) -> bool {
    old_display == Display::NoBox && new_display != Display::NoBox
}

impl ComputedValues {
    /// The style's invariant: that of its parts.
    pub open spec fn wf(&self) -> bool {
        self.inner.wf()
    }

    /// Assembles a style from its parts, seals it with the tag of `pseudo`
    /// and puts it behind a pointer, to be shared.
    pub fn new(
        pseudo: Option<&PseudoElement>,
        custom_properties: ComputedCustomProperties,
        writing_mode: WritingMode,
        effective_zoom: Zoom,
        flags: ComputedValueFlags,
        rules: Option<StrongRuleNode>,
        visited_style: Option<Box<ComputedValues>>,
        background: Handle<Background>,
        border: Handle<Border>,
        box_style: Handle<BoxStyle>,
        column: Handle<Column>,
        counters: Handle<Counters>,
        font: Handle<Font>,
        inherited_ui: Handle<InheritedUI>,
        margin: Handle<Margin>,
        outline: Handle<Outline>,
        padding: Handle<Padding>,
        position: Handle<Position>,
        svg: Handle<Svg>,
        ui: Handle<UI>,
    ) -> (values: Arc<ComputedValues>)
        ensures
            sealed_values(values) == (ComputedValues {
                inner: ComputedValuesInner {
                    custom_properties,
                    writing_mode,
                    effective_zoom,
                    flags,
                    rules,
                    visited_style,
                    background,
                    border,
                    box_style,
                    column,
                    counters,
                    font,
                    inherited_ui,
                    margin,
                    outline,
                    padding,
                    position,
                    svg,
                    ui,
                },
                pseudo_type: match pseudo {
                    Some(p) => p.tag(),
                    None => PseudoStyleType::NotPseudo,
                },
            }),
    {
        ComputedValuesInner::new(
            custom_properties,
            writing_mode,
            effective_zoom,
            flags,
            rules,
            visited_style,
            background,
            border,
            box_style,
            column,
            counters,
            font,
            inherited_ui,
            margin,
            outline,
            padding,
            position,
            svg,
            ui,
        ).to_outer(pseudo)
    }

    /// The style of an element on which nothing was declared: the default
    /// group of every category, for `doc`. The groups that `defaults` keeps
    /// are handed on as they are, so every default style shares them.
    pub fn default_values(defaults: &DefaultStyles, doc: &Document) -> (values: Arc<ComputedValues>)
        requires
            defaults.wf(),
        ensures
            sealed_values(values).wf(),
            sealed_values(values).pseudo_type == PseudoStyleType::NotPseudo,
            sealed_values(values).inner.is_default_for(*doc),
            sealed_values(values).inner.initial_values_hold(),
            sealed_values(values).inner.holds_kept_groups_of(defaults),
    {
        ComputedValuesInner::new(
            ComputedCustomProperties::new(),
            WritingMode::empty(),
            Zoom { value: Zoom::ONE },
            ComputedValueFlags::empty(),
            None,
            None,
            defaults.default_for::<Background>(Some(doc)),
            defaults.default_for::<Border>(Some(doc)),
            defaults.default_for::<BoxStyle>(Some(doc)),
            defaults.default_for::<Column>(Some(doc)),
            defaults.default_for::<Counters>(Some(doc)),
            defaults.default_for::<Font>(Some(doc)),
            defaults.default_for::<InheritedUI>(Some(doc)),
            defaults.default_for::<Margin>(Some(doc)),
            defaults.default_for::<Outline>(Some(doc)),
            defaults.default_for::<Padding>(Some(doc)),
            defaults.default_for::<Position>(Some(doc)),
            defaults.default_for::<Svg>(Some(doc)),
            defaults.default_for::<UI>(Some(doc)),
        ).to_outer(None)
    }

    /// Reads a shared style.
    pub fn get(values: &Arc<ComputedValues>) -> (style: &ComputedValues)
        ensures
            *style == sealed_values(*values),
    {
        arc_values(values)
    }

    /// Another pointer to a shared style. The style is not copied.
    pub fn share(values: &Arc<ComputedValues>) -> (second: Arc<ComputedValues>)
        ensures
            sealed_values(second) == sealed_values(*values),
    {
        arc_share(values)
    }

    /// The parts of the style.
    pub fn inner(&self) -> (inner: &ComputedValuesInner)
        ensures
            *inner == self.inner,
    {
        &self.inner
    }

    /// Whether this is the style of a pseudo-element.
    pub fn is_pseudo_style(&self) -> (pseudo: bool)
        ensures
            pseudo == (self.pseudo_type != PseudoStyleType::NotPseudo),
    {
        self.pseudo_type != PseudoStyleType::NotPseudo
    }

    /// The pseudo-element whose style this is; `None` for the style of an
    /// element proper.
    pub fn pseudo(&self) -> (pseudo: Option<PseudoElement>)
        ensures
            pseudo == PseudoElement::of_tag(self.pseudo_type),
    {
        if !self.is_pseudo_style() {
            return None;
        }
        PseudoElement::from_pseudo_type(self.pseudo_type)
    }

    /// Whether this is the style of a `::first-line`.
    pub fn is_first_line_style(&self) -> (first_line: bool)
        ensures
            first_line == (self.pseudo_type == PseudoStyleType::FirstLine),
    {
        match self.pseudo() {
            Some(PseudoElement::FirstLine) => true,
            _ => false,
        }
    }

    /// Whether `display` went from `none` in `old_values` to anything else
    /// in this style. Without old values nothing has changed.
    pub fn is_display_property_changed_from_none(
        &self,
        old_values: Option<&ComputedValues>,
    ) -> (changed: bool)
        requires
            self.wf(),
            match old_values {
                Some(old_style) => old_style.wf(),
                None => true,
            },
        ensures
            changed == (match old_values {
                Some(old_style) => display_changed_from_none(
                    old_style.inner.box_style@.display,
                    self.inner.box_style@.display,
                ),
                None => false,
            }),
    {
        match old_values {
            Some(old_style) => {
                let old_display_style = old_style.inner.get_box().clone_display();
                let new_display_style = self.inner.get_box().clone_display();
                old_display_style == Display::NoBox && new_display_style != Display::NoBox
            },
            None => false,
        }
    }
}

/// Whether every property of `values` that starts from a fixed value holds
/// that value: what must be true of a default style.
pub fn assert_initial_values_match(values: &ComputedValues) -> (matching: bool)
    requires
        values.wf(),
    ensures
        matching == values.inner.initial_values_hold(),
{
    let style = &values.inner;
    style.get_background().has_initial_values()
        && style.get_border().has_initial_values()
        && style.get_box().has_initial_values()
        && style.get_column().has_initial_values()
        && style.get_counters().has_initial_values()
        && style.get_font().has_initial_values()
        && style.get_inherited_ui().has_initial_values()
        && style.get_margin().has_initial_values()
        && style.get_outline().has_initial_values()
        && style.get_padding().has_initial_values()
        && style.get_position().has_initial_values()
        && style.get_svg().has_initial_values()
        && style.get_ui().has_initial_values()
}

/// Two styles that hold the groups kept by one and the same `defaults`
/// hold, in every category whose initial values do not depend on the
/// document, one and the same group in memory.
pub proof fn default_styles_share_their_groups(
    first: ComputedValuesInner,
    second: ComputedValuesInner,
    defaults: DefaultStyles,
)
    requires
        first.holds_kept_groups_of(&defaults),
        second.holds_kept_groups_of(&defaults),
    ensures
        first.background.same_group_as(&second.background),
        first.border.same_group_as(&second.border),
        first.box_style.same_group_as(&second.box_style),
        first.column.same_group_as(&second.column),
        first.counters.same_group_as(&second.counters),
        first.inherited_ui.same_group_as(&second.inherited_ui),
        first.margin.same_group_as(&second.margin),
        first.outline.same_group_as(&second.outline),
        first.padding.same_group_as(&second.padding),
        first.position.same_group_as(&second.position),
        first.svg.same_group_as(&second.svg),
        first.ui.same_group_as(&second.ui),
{
    sharers_are_one_instance(first.background, second.background, defaults.background);
    sharers_are_one_instance(first.border, second.border, defaults.border);
    sharers_are_one_instance(first.box_style, second.box_style, defaults.box_style);
    sharers_are_one_instance(first.column, second.column, defaults.column);
    sharers_are_one_instance(first.counters, second.counters, defaults.counters);
    sharers_are_one_instance(first.inherited_ui, second.inherited_ui, defaults.inherited_ui);
    sharers_are_one_instance(first.margin, second.margin, defaults.margin);
    sharers_are_one_instance(first.outline, second.outline, defaults.outline);
    sharers_are_one_instance(first.padding, second.padding, defaults.padding);
    sharers_are_one_instance(first.position, second.position, defaults.position);
    sharers_are_one_instance(first.svg, second.svg, defaults.svg);
    sharers_are_one_instance(first.ui, second.ui, defaults.ui);
}

/// A change of `display` away from `none` has a direction: it never holds
/// both ways, and never of a style against itself.
pub proof fn display_change_has_a_direction(a: Display, b: Display)
    ensures
        display_changed_from_none(a, b) ==> !display_changed_from_none(b, a),
        !display_changed_from_none(a, a),
{
}

} // verus!
