//! The default groups. The initial values of most categories are the same
//! for every element of every document, so one group per such category is
//! built once, kept for as long as the process lives, and shared by every
//! style that never set a property of the category. A category whose
//! initial values depend on the document gets a new group each time.

use vstd::prelude::*;
use crate::background::Background;
use crate::border::Border;
use crate::box_style::BoxStyle;
use crate::column::Column;
use crate::counters::Counters;
use crate::font::Font;
use crate::inherited_ui::InheritedUI;
use crate::margin::Margin;
use crate::outline::Outline;
use crate::padding::Padding;
use crate::position::Position;
use crate::svg::Svg;
use crate::ui::UI;
use crate::shared::{sharers_are_one_instance, Handle, StyleStruct};
use crate::style_group::Document;

verus! {

/// The default group of every category whose initial values do not depend
/// on the document.
pub struct DefaultStyles {
    pub background: Handle<Background>,
    pub border: Handle<Border>,
    pub box_style: Handle<BoxStyle>,
    pub column: Handle<Column>,
    pub counters: Handle<Counters>,
    pub inherited_ui: Handle<InheritedUI>,
    pub margin: Handle<Margin>,
    pub outline: Handle<Outline>,
    pub padding: Handle<Padding>,
    pub position: Handle<Position>,
    pub svg: Handle<Svg>,
    pub ui: Handle<UI>,
}

impl DefaultStyles {
    /// Every group is valid and holds its category's initial values.
    pub open spec fn wf(&self) -> bool {
        &&& self.background.wf()
        &&& self.background@ == <Background as StyleStruct>::initial_model(None)
        &&& self.border.wf()
        &&& self.border@ == <Border as StyleStruct>::initial_model(None)
        &&& self.box_style.wf()
        &&& self.box_style@ == <BoxStyle as StyleStruct>::initial_model(None)
        &&& self.column.wf()
        &&& self.column@ == <Column as StyleStruct>::initial_model(None)
        &&& self.counters.wf()
        &&& self.counters@ == <Counters as StyleStruct>::initial_model(None)
        &&& self.inherited_ui.wf()
        &&& self.inherited_ui@ == <InheritedUI as StyleStruct>::initial_model(None)
        &&& self.margin.wf()
        &&& self.margin@ == <Margin as StyleStruct>::initial_model(None)
        &&& self.outline.wf()
        &&& self.outline@ == <Outline as StyleStruct>::initial_model(None)
        &&& self.padding.wf()
        &&& self.padding@ == <Padding as StyleStruct>::initial_model(None)
        &&& self.position.wf()
        &&& self.position@ == <Position as StyleStruct>::initial_model(None)
        &&& self.svg.wf()
        &&& self.svg@ == <Svg as StyleStruct>::initial_model(None)
        &&& self.ui.wf()
        &&& self.ui@ == <UI as StyleStruct>::initial_model(None)
    }

    /// Builds the default groups. They are never released: build them once.
    pub fn new() -> (defaults: Self)
        ensures
            defaults.wf(),
    {
        DefaultStyles {
            background: Handle::new_leaked(<Background as StyleStruct>::initial(None)),
            border: Handle::new_leaked(<Border as StyleStruct>::initial(None)),
            box_style: Handle::new_leaked(<BoxStyle as StyleStruct>::initial(None)),
            column: Handle::new_leaked(<Column as StyleStruct>::initial(None)),
            counters: Handle::new_leaked(<Counters as StyleStruct>::initial(None)),
            inherited_ui: Handle::new_leaked(<InheritedUI as StyleStruct>::initial(None)),
            margin: Handle::new_leaked(<Margin as StyleStruct>::initial(None)),
            outline: Handle::new_leaked(<Outline as StyleStruct>::initial(None)),
            padding: Handle::new_leaked(<Padding as StyleStruct>::initial(None)),
            position: Handle::new_leaked(<Position as StyleStruct>::initial(None)),
            svg: Handle::new_leaked(<Svg as StyleStruct>::initial(None)),
            ui: Handle::new_leaked(<UI as StyleStruct>::initial(None)),
        }
    }

    /// The default group of the category `C`, for `document` or for none.
    /// Where the category's initial values depend on the document, a new
    /// group is built; otherwise the one kept group is handed out, the same
    /// group in memory each time.
    pub fn default_for<C: CachedDefault>(&self, document: Option<&Document>) -> (handle: Handle<C>)
        requires
            self.wf(),
        ensures
            handle.wf(),
            handle@ == C::initial_model(
                match document {
                    Some(d) => Some(*d),
                    None => None,
                },
            ),
            match C::kept_in(*self) {
                Some(kept) => handle.shares_with(&kept),
                None => true,
            },
    {
        proof {
            C::kept_group_holds_initial_values(*self);
            C::initial_values_without_document(
                match document {
                    Some(d) => Some(*d),
                    None => None,
                },
            );
        }
        match C::kept(self) {
            Some(kept) => kept.share(),
            None => Handle::default_for(document),
        }
    }
}

/// A category with its place among the default groups, if it has one.
pub trait CachedDefault: StyleStruct {
    /// The category's group among the default groups; none where the
    /// initial values depend on the document.
    spec fn kept_in(defaults: DefaultStyles) -> Option<Handle<Self>>;

    /// A group is kept exactly for the categories that do not depend on the
    /// document, and it holds the category's initial values.
    proof fn kept_group_holds_initial_values(defaults: DefaultStyles)
        requires
            defaults.wf(),
        ensures
            Self::kept_in(defaults) is None <==> Self::document_dependent(),
            match Self::kept_in(defaults) {
                Some(kept) => kept.wf() && kept@ == Self::initial_model(None),
                None => true,
            },
    ;

    /// The category's group among the default groups, if one is kept.
    fn kept(defaults: &DefaultStyles) -> (handle: Option<&Handle<Self>>)
        ensures
            match handle {
                Some(kept) => Self::kept_in(*defaults) == Some(*kept),
                None => Self::kept_in(*defaults) is None,
            },
    ;
}

impl CachedDefault for Background {
    open spec fn kept_in(defaults: DefaultStyles) -> Option<Handle<Self>> {
        Some(defaults.background)
    }

    proof fn kept_group_holds_initial_values(defaults: DefaultStyles) {
    }

    fn kept(defaults: &DefaultStyles) -> (handle: Option<&Handle<Self>>) {
        Some(&defaults.background)
    }
}

impl CachedDefault for Border {
    open spec fn kept_in(defaults: DefaultStyles) -> Option<Handle<Self>> {
        Some(defaults.border)
    }

    proof fn kept_group_holds_initial_values(defaults: DefaultStyles) {
    }

    fn kept(defaults: &DefaultStyles) -> (handle: Option<&Handle<Self>>) {
        Some(&defaults.border)
    }
}

impl CachedDefault for BoxStyle {
    open spec fn kept_in(defaults: DefaultStyles) -> Option<Handle<Self>> {
        Some(defaults.box_style)
    }

    proof fn kept_group_holds_initial_values(defaults: DefaultStyles) {
    }

    fn kept(defaults: &DefaultStyles) -> (handle: Option<&Handle<Self>>) {
        Some(&defaults.box_style)
    }
}

impl CachedDefault for Column {
    open spec fn kept_in(defaults: DefaultStyles) -> Option<Handle<Self>> {
        Some(defaults.column)
    }

    proof fn kept_group_holds_initial_values(defaults: DefaultStyles) {
    }

    fn kept(defaults: &DefaultStyles) -> (handle: Option<&Handle<Self>>) {
        Some(&defaults.column)
    }
}

impl CachedDefault for Counters {
    open spec fn kept_in(defaults: DefaultStyles) -> Option<Handle<Self>> {
        Some(defaults.counters)
    }

    proof fn kept_group_holds_initial_values(defaults: DefaultStyles) {
    }

    fn kept(defaults: &DefaultStyles) -> (handle: Option<&Handle<Self>>) {
        Some(&defaults.counters)
    }
}

impl CachedDefault for Font {
    open spec fn kept_in(defaults: DefaultStyles) -> Option<Handle<Self>> {
        None
    }

    proof fn kept_group_holds_initial_values(defaults: DefaultStyles) {
    }

    fn kept(defaults: &DefaultStyles) -> (handle: Option<&Handle<Self>>) {
        None
    }
}

impl CachedDefault for InheritedUI {
    open spec fn kept_in(defaults: DefaultStyles) -> Option<Handle<Self>> {
        Some(defaults.inherited_ui)
    }

    proof fn kept_group_holds_initial_values(defaults: DefaultStyles) {
    }

    fn kept(defaults: &DefaultStyles) -> (handle: Option<&Handle<Self>>) {
        Some(&defaults.inherited_ui)
    }
}

impl CachedDefault for Margin {
    open spec fn kept_in(defaults: DefaultStyles) -> Option<Handle<Self>> {
        Some(defaults.margin)
    }

    proof fn kept_group_holds_initial_values(defaults: DefaultStyles) {
    }

    fn kept(defaults: &DefaultStyles) -> (handle: Option<&Handle<Self>>) {
        Some(&defaults.margin)
    }
}

impl CachedDefault for Outline {
    open spec fn kept_in(defaults: DefaultStyles) -> Option<Handle<Self>> {
        Some(defaults.outline)
    }

    proof fn kept_group_holds_initial_values(defaults: DefaultStyles) {
    }

    fn kept(defaults: &DefaultStyles) -> (handle: Option<&Handle<Self>>) {
        Some(&defaults.outline)
    }
}

impl CachedDefault for Padding {
    open spec fn kept_in(defaults: DefaultStyles) -> Option<Handle<Self>> {
        Some(defaults.padding)
    }

    proof fn kept_group_holds_initial_values(defaults: DefaultStyles) {
    }

    fn kept(defaults: &DefaultStyles) -> (handle: Option<&Handle<Self>>) {
        Some(&defaults.padding)
    }
}

impl CachedDefault for Position {
    open spec fn kept_in(defaults: DefaultStyles) -> Option<Handle<Self>> {
        Some(defaults.position)
    }

    proof fn kept_group_holds_initial_values(defaults: DefaultStyles) {
    }

    fn kept(defaults: &DefaultStyles) -> (handle: Option<&Handle<Self>>) {
        Some(&defaults.position)
    }
}

impl CachedDefault for Svg {
    open spec fn kept_in(defaults: DefaultStyles) -> Option<Handle<Self>> {
        Some(defaults.svg)
    }

    proof fn kept_group_holds_initial_values(defaults: DefaultStyles) {
    }

    fn kept(defaults: &DefaultStyles) -> (handle: Option<&Handle<Self>>) {
        Some(&defaults.svg)
    }
}

impl CachedDefault for UI {
    open spec fn kept_in(defaults: DefaultStyles) -> Option<Handle<Self>> {
        Some(defaults.ui)
    }

    proof fn kept_group_holds_initial_values(defaults: DefaultStyles) {
    }

    fn kept(defaults: &DefaultStyles) -> (handle: Option<&Handle<Self>>) {
        Some(&defaults.ui)
    }
}

/// Asked twice for the default of a category whose group is kept, the
/// answers are one instance: the same group in memory, whatever documents
/// they were asked for.
pub proof fn kept_default_is_one_instance<C: CachedDefault>(
    defaults: DefaultStyles,
    first: Handle<C>,
    second: Handle<C>,
)
    requires
        C::kept_in(defaults) matches Some(kept) && first.shares_with(&kept) && second.shares_with(
            &kept,
        ),
    ensures
        first.same_group_as(&second),
        second.same_group_as(&first),
{
    sharers_are_one_instance(first, second, C::kept_in(defaults)->0);
}

/// The default of a category whose initial values do not depend on the
/// document holds the same values whatever document it is asked for, and so
/// does any default asked for twice for the same document.
pub proof fn defaults_are_stable<C: StyleStruct>(first: Option<Document>, second: Option<Document>)
    ensures
        !C::document_dependent() ==> C::initial_model(first) == C::initial_model(second),
        first == second ==> C::initial_model(first) == C::initial_model(second),
{
    C::initial_values_without_document(first);
    C::initial_values_without_document(second);
}

} // verus!
