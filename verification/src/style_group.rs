//! The style groups by category, as one type that a shared pointer can
//! point to.

use vstd::prelude::*;
use crate::background::Background;
use crate::border::Border;
use crate::box_style::BoxStyle;
use crate::column::Column;
use crate::counters::Counters;
use crate::font::Font;
use crate::inherited_ui::InheritedUI;
use crate::margin::Margin;
use crate::outline::Outline;
use crate::padding::Padding;
use crate::position::Position;
use crate::svg::Svg;
use crate::ui::UI;
use crate::shared::StyleStruct;

verus! {

/// What the embedding document contributes to initial values.
#[derive(Clone, Copy, Debug, PartialEq, Eq, Structural)]
pub struct Document {
    /// The document's default font size, in app units.
    pub default_font_size: i32,
    /// The document's language, as an interned name.
    pub language: u32,
}

/// The computed values of one category of properties.
pub enum StyleStructGroup {
    Background(Background),
    Border(Border),
    Box(BoxStyle),
    Column(Column),
    Counters(Counters),
    Font(Font),
    InheritedUI(InheritedUI),
    Margin(Margin),
    Outline(Outline),
    Padding(Padding),
    Position(Position),
    Svg(Svg),
    UI(UI),
}

impl StyleStructGroup {
    /// Whether two groups are of one category and hold the same values.
    pub open spec fn same_contents(self, other: Self) -> bool {
        match (self, other) {
            (StyleStructGroup::Background(a), StyleStructGroup::Background(b)) => a@ == b@,
            (StyleStructGroup::Border(a), StyleStructGroup::Border(b)) => a@ == b@,
            (StyleStructGroup::Box(a), StyleStructGroup::Box(b)) => a@ == b@,
            (StyleStructGroup::Column(a), StyleStructGroup::Column(b)) => a@ == b@,
            (StyleStructGroup::Counters(a), StyleStructGroup::Counters(b)) => a@ == b@,
            (StyleStructGroup::Font(a), StyleStructGroup::Font(b)) => a@ == b@,
            (StyleStructGroup::InheritedUI(a), StyleStructGroup::InheritedUI(b)) => a@ == b@,
            (StyleStructGroup::Margin(a), StyleStructGroup::Margin(b)) => a@ == b@,
            (StyleStructGroup::Outline(a), StyleStructGroup::Outline(b)) => a@ == b@,
            (StyleStructGroup::Padding(a), StyleStructGroup::Padding(b)) => a@ == b@,
            (StyleStructGroup::Position(a), StyleStructGroup::Position(b)) => a@ == b@,
            (StyleStructGroup::Svg(a), StyleStructGroup::Svg(b)) => a@ == b@,
            (StyleStructGroup::UI(a), StyleStructGroup::UI(b)) => a@ == b@,
            _ => false,
        }
    }
}

impl Clone for StyleStructGroup {
    /// A deep copy: the one copy that a write to a shared group costs.
    fn clone(&self) -> (copy: Self)
        ensures
            self.same_contents(copy),
    {
        match self {
            StyleStructGroup::Background(g) => StyleStructGroup::Background(g.clone()),
            StyleStructGroup::Border(g) => StyleStructGroup::Border(*g),
            StyleStructGroup::Box(g) => StyleStructGroup::Box(*g),
            StyleStructGroup::Column(g) => StyleStructGroup::Column(*g),
            StyleStructGroup::Counters(g) => StyleStructGroup::Counters(*g),
            StyleStructGroup::Font(g) => StyleStructGroup::Font(g.clone()),
            StyleStructGroup::InheritedUI(g) => StyleStructGroup::InheritedUI(*g),
            StyleStructGroup::Margin(g) => StyleStructGroup::Margin(*g),
            StyleStructGroup::Outline(g) => StyleStructGroup::Outline(*g),
            StyleStructGroup::Padding(g) => StyleStructGroup::Padding(*g),
            StyleStructGroup::Position(g) => StyleStructGroup::Position(*g),
            StyleStructGroup::Svg(g) => StyleStructGroup::Svg(g.clone()),
            StyleStructGroup::UI(g) => StyleStructGroup::UI(g.clone()),
        }
    }
}

impl StyleStruct for Background {
    open spec fn into_group(self) -> StyleStructGroup {
        StyleStructGroup::Background(self)
    }

    open spec fn held_by(group: StyleStructGroup) -> bool {
        group is Background
    }

    open spec fn from_group(group: StyleStructGroup) -> Self {
        group->Background_0
    }

    open spec fn valid(self) -> bool {
        self.wf()
    }

    open spec fn initial_model(document: Option<Document>) -> Self::V {
        Background::initial_model()
    }

    open spec fn document_dependent() -> bool {
        false
    }

    proof fn group_holds_its_value(self) {
    }

    proof fn same_contents_same_values(a: StyleStructGroup, b: StyleStructGroup) {
    }

    proof fn initial_values_without_document(document: Option<Document>) {
    }

    fn wrap(self) -> (group: StyleStructGroup) {
        StyleStructGroup::Background(self)
    }

    fn peek(group: &StyleStructGroup) -> (value: &Self) {
        match group {
            StyleStructGroup::Background(value) => value,
            _ => vstd::pervasive::unreached(),
        }
    }

    fn peek_mut(group: &mut StyleStructGroup) -> (value: &mut Self) {
        match group {
            StyleStructGroup::Background(value) => value,
            _ => vstd::pervasive::unreached(),
        }
    }

    fn initial(document: Option<&Document>) -> (value: Self) {
        Background::initial()
    }

    fn depends_on_document() -> (dependent: bool) {
        false
    }
}

impl StyleStruct for Border {
    open spec fn into_group(self) -> StyleStructGroup {
        StyleStructGroup::Border(self)
    }

    open spec fn held_by(group: StyleStructGroup) -> bool {
        group is Border
    }

    open spec fn from_group(group: StyleStructGroup) -> Self {
        group->Border_0
    }

    open spec fn valid(self) -> bool {
        true
    }

    open spec fn initial_model(document: Option<Document>) -> Self::V {
        Border::initial_model()
    }

    open spec fn document_dependent() -> bool {
        false
    }

    proof fn group_holds_its_value(self) {
    }

    proof fn same_contents_same_values(a: StyleStructGroup, b: StyleStructGroup) {
    }

    proof fn initial_values_without_document(document: Option<Document>) {
    }

    fn wrap(self) -> (group: StyleStructGroup) {
        StyleStructGroup::Border(self)
    }

    fn peek(group: &StyleStructGroup) -> (value: &Self) {
        match group {
            StyleStructGroup::Border(value) => value,
            _ => vstd::pervasive::unreached(),
        }
    }

    fn peek_mut(group: &mut StyleStructGroup) -> (value: &mut Self) {
        match group {
            StyleStructGroup::Border(value) => value,
            _ => vstd::pervasive::unreached(),
        }
    }

    fn initial(document: Option<&Document>) -> (value: Self) {
        Border::initial()
    }

    fn depends_on_document() -> (dependent: bool) {
        false
    }
}

impl StyleStruct for BoxStyle {
    open spec fn into_group(self) -> StyleStructGroup {
        StyleStructGroup::Box(self)
    }

    open spec fn held_by(group: StyleStructGroup) -> bool {
        group is Box
    }

    open spec fn from_group(group: StyleStructGroup) -> Self {
        group->Box_0
    }

    open spec fn valid(self) -> bool {
        true
    }

    open spec fn initial_model(document: Option<Document>) -> Self::V {
        BoxStyle::initial_model()
    }

    open spec fn document_dependent() -> bool {
        false
    }

    proof fn group_holds_its_value(self) {
    }

    proof fn same_contents_same_values(a: StyleStructGroup, b: StyleStructGroup) {
    }

    proof fn initial_values_without_document(document: Option<Document>) {
    }

    fn wrap(self) -> (group: StyleStructGroup) {
        StyleStructGroup::Box(self)
    }

    fn peek(group: &StyleStructGroup) -> (value: &Self) {
        match group {
            StyleStructGroup::Box(value) => value,
            _ => vstd::pervasive::unreached(),
        }
    }

    fn peek_mut(group: &mut StyleStructGroup) -> (value: &mut Self) {
        match group {
            StyleStructGroup::Box(value) => value,
            _ => vstd::pervasive::unreached(),
        }
    }

    fn initial(document: Option<&Document>) -> (value: Self) {
        BoxStyle::initial()
    }

    fn depends_on_document() -> (dependent: bool) {
        false
    }
}

impl StyleStruct for Column {
    open spec fn into_group(self) -> StyleStructGroup {
        StyleStructGroup::Column(self)
    }

    open spec fn held_by(group: StyleStructGroup) -> bool {
        group is Column
    }

    open spec fn from_group(group: StyleStructGroup) -> Self {
        group->Column_0
    }

    open spec fn valid(self) -> bool {
        true
    }

    open spec fn initial_model(document: Option<Document>) -> Self::V {
        Column::initial_model()
    }

    open spec fn document_dependent() -> bool {
        false
    }

    proof fn group_holds_its_value(self) {
    }

    proof fn same_contents_same_values(a: StyleStructGroup, b: StyleStructGroup) {
    }

    proof fn initial_values_without_document(document: Option<Document>) {
    }

    fn wrap(self) -> (group: StyleStructGroup) {
        StyleStructGroup::Column(self)
    }

    fn peek(group: &StyleStructGroup) -> (value: &Self) {
        match group {
            StyleStructGroup::Column(value) => value,
            _ => vstd::pervasive::unreached(),
        }
    }

    fn peek_mut(group: &mut StyleStructGroup) -> (value: &mut Self) {
        match group {
            StyleStructGroup::Column(value) => value,
            _ => vstd::pervasive::unreached(),
        }
    }

    fn initial(document: Option<&Document>) -> (value: Self) {
        Column::initial()
    }

    fn depends_on_document() -> (dependent: bool) {
        false
    }
}

impl StyleStruct for Counters {
    open spec fn into_group(self) -> StyleStructGroup {
        StyleStructGroup::Counters(self)
    }

    open spec fn held_by(group: StyleStructGroup) -> bool {
        group is Counters
    }

    open spec fn from_group(group: StyleStructGroup) -> Self {
        group->Counters_0
    }

    open spec fn valid(self) -> bool {
        true
    }

    open spec fn initial_model(document: Option<Document>) -> Self::V {
        Counters::initial_model()
    }

    open spec fn document_dependent() -> bool {
        false
    }

    proof fn group_holds_its_value(self) {
    }

    proof fn same_contents_same_values(a: StyleStructGroup, b: StyleStructGroup) {
    }

    proof fn initial_values_without_document(document: Option<Document>) {
    }

    fn wrap(self) -> (group: StyleStructGroup) {
        StyleStructGroup::Counters(self)
    }

    fn peek(group: &StyleStructGroup) -> (value: &Self) {
        match group {
            StyleStructGroup::Counters(value) => value,
            _ => vstd::pervasive::unreached(),
        }
    }

    fn peek_mut(group: &mut StyleStructGroup) -> (value: &mut Self) {
        match group {
            StyleStructGroup::Counters(value) => value,
            _ => vstd::pervasive::unreached(),
        }
    }

    fn initial(document: Option<&Document>) -> (value: Self) {
        Counters::initial()
    }

    fn depends_on_document() -> (dependent: bool) {
        false
    }
}

impl StyleStruct for Font {
    open spec fn into_group(self) -> StyleStructGroup {
        StyleStructGroup::Font(self)
    }

    open spec fn held_by(group: StyleStructGroup) -> bool {
        group is Font
    }

    open spec fn from_group(group: StyleStructGroup) -> Self {
        group->Font_0
    }

    open spec fn valid(self) -> bool {
        true
    }

    open spec fn initial_model(document: Option<Document>) -> Self::V {
        Font::initial_model(document)
    }

    open spec fn document_dependent() -> bool {
        true
    }

    proof fn group_holds_its_value(self) {
    }

    proof fn same_contents_same_values(a: StyleStructGroup, b: StyleStructGroup) {
    }

    proof fn initial_values_without_document(document: Option<Document>) {
    }

    fn wrap(self) -> (group: StyleStructGroup) {
        StyleStructGroup::Font(self)
    }

    fn peek(group: &StyleStructGroup) -> (value: &Self) {
        match group {
            StyleStructGroup::Font(value) => value,
            _ => vstd::pervasive::unreached(),
        }
    }

    fn peek_mut(group: &mut StyleStructGroup) -> (value: &mut Self) {
        match group {
            StyleStructGroup::Font(value) => value,
            _ => vstd::pervasive::unreached(),
        }
    }

    fn initial(document: Option<&Document>) -> (value: Self) {
        Font::initial(document)
    }

    fn depends_on_document() -> (dependent: bool) {
        true
    }
}

impl StyleStruct for InheritedUI {
    open spec fn into_group(self) -> StyleStructGroup {
        StyleStructGroup::InheritedUI(self)
    }

    open spec fn held_by(group: StyleStructGroup) -> bool {
        group is InheritedUI
    }

    open spec fn from_group(group: StyleStructGroup) -> Self {
        group->InheritedUI_0
    }

    open spec fn valid(self) -> bool {
        true
    }

    open spec fn initial_model(document: Option<Document>) -> Self::V {
        InheritedUI::initial_model()
    }

    open spec fn document_dependent() -> bool {
        false
    }

    proof fn group_holds_its_value(self) {
    }

    proof fn same_contents_same_values(a: StyleStructGroup, b: StyleStructGroup) {
    }

    proof fn initial_values_without_document(document: Option<Document>) {
    }

    fn wrap(self) -> (group: StyleStructGroup) {
        StyleStructGroup::InheritedUI(self)
    }

    fn peek(group: &StyleStructGroup) -> (value: &Self) {
        match group {
            StyleStructGroup::InheritedUI(value) => value,
            _ => vstd::pervasive::unreached(),
        }
    }

    fn peek_mut(group: &mut StyleStructGroup) -> (value: &mut Self) {
        match group {
            StyleStructGroup::InheritedUI(value) => value,
            _ => vstd::pervasive::unreached(),
        }
    }

    fn initial(document: Option<&Document>) -> (value: Self) {
        InheritedUI::initial()
    }

    fn depends_on_document() -> (dependent: bool) {
        false
    }
}

impl StyleStruct for Margin {
    open spec fn into_group(self) -> StyleStructGroup {
        StyleStructGroup::Margin(self)
    }

    open spec fn held_by(group: StyleStructGroup) -> bool {
        group is Margin
    }

    open spec fn from_group(group: StyleStructGroup) -> Self {
        group->Margin_0
    }

    open spec fn valid(self) -> bool {
        true
    }

    open spec fn initial_model(document: Option<Document>) -> Self::V {
        Margin::initial_model()
    }

    open spec fn document_dependent() -> bool {
        false
    }

    proof fn group_holds_its_value(self) {
    }

    proof fn same_contents_same_values(a: StyleStructGroup, b: StyleStructGroup) {
    }

    proof fn initial_values_without_document(document: Option<Document>) {
    }

    fn wrap(self) -> (group: StyleStructGroup) {
        StyleStructGroup::Margin(self)
    }

    fn peek(group: &StyleStructGroup) -> (value: &Self) {
        match group {
            StyleStructGroup::Margin(value) => value,
            _ => vstd::pervasive::unreached(),
        }
    }

    fn peek_mut(group: &mut StyleStructGroup) -> (value: &mut Self) {
        match group {
            StyleStructGroup::Margin(value) => value,
            _ => vstd::pervasive::unreached(),
        }
    }

    fn initial(document: Option<&Document>) -> (value: Self) {
        Margin::initial()
    }

    fn depends_on_document() -> (dependent: bool) {
        false
    }
}

impl StyleStruct for Outline {
    open spec fn into_group(self) -> StyleStructGroup {
        StyleStructGroup::Outline(self)
    }

    open spec fn held_by(group: StyleStructGroup) -> bool {
        group is Outline
    }

    open spec fn from_group(group: StyleStructGroup) -> Self {
        group->Outline_0
    }

    open spec fn valid(self) -> bool {
        true
    }

    open spec fn initial_model(document: Option<Document>) -> Self::V {
        Outline::initial_model()
    }

    open spec fn document_dependent() -> bool {
        false
    }

    proof fn group_holds_its_value(self) {
    }

    proof fn same_contents_same_values(a: StyleStructGroup, b: StyleStructGroup) {
    }

    proof fn initial_values_without_document(document: Option<Document>) {
    }

    fn wrap(self) -> (group: StyleStructGroup) {
        StyleStructGroup::Outline(self)
    }

    fn peek(group: &StyleStructGroup) -> (value: &Self) {
        match group {
            StyleStructGroup::Outline(value) => value,
            _ => vstd::pervasive::unreached(),
        }
    }

    fn peek_mut(group: &mut StyleStructGroup) -> (value: &mut Self) {
        match group {
            StyleStructGroup::Outline(value) => value,
            _ => vstd::pervasive::unreached(),
        }
    }

    fn initial(document: Option<&Document>) -> (value: Self) {
        Outline::initial()
    }

    fn depends_on_document() -> (dependent: bool) {
        false
    }
}

impl StyleStruct for Padding {
    open spec fn into_group(self) -> StyleStructGroup {
        StyleStructGroup::Padding(self)
    }

    open spec fn held_by(group: StyleStructGroup) -> bool {
        group is Padding
    }

    open spec fn from_group(group: StyleStructGroup) -> Self {
        group->Padding_0
    }

    open spec fn valid(self) -> bool {
        true
    }

    open spec fn initial_model(document: Option<Document>) -> Self::V {
        Padding::initial_model()
    }

    open spec fn document_dependent() -> bool {
        false
    }

    proof fn group_holds_its_value(self) {
    }

    proof fn same_contents_same_values(a: StyleStructGroup, b: StyleStructGroup) {
    }

    proof fn initial_values_without_document(document: Option<Document>) {
    }

    fn wrap(self) -> (group: StyleStructGroup) {
        StyleStructGroup::Padding(self)
    }

    fn peek(group: &StyleStructGroup) -> (value: &Self) {
        match group {
            StyleStructGroup::Padding(value) => value,
            _ => vstd::pervasive::unreached(),
        }
    }

    fn peek_mut(group: &mut StyleStructGroup) -> (value: &mut Self) {
        match group {
            StyleStructGroup::Padding(value) => value,
            _ => vstd::pervasive::unreached(),
        }
    }

    fn initial(document: Option<&Document>) -> (value: Self) {
        Padding::initial()
    }

    fn depends_on_document() -> (dependent: bool) {
        false
    }
}

impl StyleStruct for Position {
    open spec fn into_group(self) -> StyleStructGroup {
        StyleStructGroup::Position(self)
    }

    open spec fn held_by(group: StyleStructGroup) -> bool {
        group is Position
    }

    open spec fn from_group(group: StyleStructGroup) -> Self {
        group->Position_0
    }

    open spec fn valid(self) -> bool {
        true
    }

    open spec fn initial_model(document: Option<Document>) -> Self::V {
        Position::initial_model()
    }

    open spec fn document_dependent() -> bool {
        false
    }

    proof fn group_holds_its_value(self) {
    }

    proof fn same_contents_same_values(a: StyleStructGroup, b: StyleStructGroup) {
    }

    proof fn initial_values_without_document(document: Option<Document>) {
    }

    fn wrap(self) -> (group: StyleStructGroup) {
        StyleStructGroup::Position(self)
    }

    fn peek(group: &StyleStructGroup) -> (value: &Self) {
        match group {
            StyleStructGroup::Position(value) => value,
            _ => vstd::pervasive::unreached(),
        }
    }

    fn peek_mut(group: &mut StyleStructGroup) -> (value: &mut Self) {
        match group {
            StyleStructGroup::Position(value) => value,
            _ => vstd::pervasive::unreached(),
        }
    }

    fn initial(document: Option<&Document>) -> (value: Self) {
        Position::initial()
    }

    fn depends_on_document() -> (dependent: bool) {
        false
    }
}

impl StyleStruct for Svg {
    open spec fn into_group(self) -> StyleStructGroup {
        StyleStructGroup::Svg(self)
    }

    open spec fn held_by(group: StyleStructGroup) -> bool {
        group is Svg
    }

    open spec fn from_group(group: StyleStructGroup) -> Self {
        group->Svg_0
    }

    open spec fn valid(self) -> bool {
        self.wf()
    }

    open spec fn initial_model(document: Option<Document>) -> Self::V {
        Svg::initial_model()
    }

    open spec fn document_dependent() -> bool {
        false
    }

    proof fn group_holds_its_value(self) {
    }

    proof fn same_contents_same_values(a: StyleStructGroup, b: StyleStructGroup) {
    }

    proof fn initial_values_without_document(document: Option<Document>) {
    }

    fn wrap(self) -> (group: StyleStructGroup) {
        StyleStructGroup::Svg(self)
    }

    fn peek(group: &StyleStructGroup) -> (value: &Self) {
        match group {
            StyleStructGroup::Svg(value) => value,
            _ => vstd::pervasive::unreached(),
        }
    }

    fn peek_mut(group: &mut StyleStructGroup) -> (value: &mut Self) {
        match group {
            StyleStructGroup::Svg(value) => value,
            _ => vstd::pervasive::unreached(),
        }
    }

    fn initial(document: Option<&Document>) -> (value: Self) {
        Svg::initial()
    }

    fn depends_on_document() -> (dependent: bool) {
        false
    }
}

impl StyleStruct for UI {
    open spec fn into_group(self) -> StyleStructGroup {
        StyleStructGroup::UI(self)
    }

    open spec fn held_by(group: StyleStructGroup) -> bool {
        group is UI
    }

    open spec fn from_group(group: StyleStructGroup) -> Self {
        group->UI_0
    }

    open spec fn valid(self) -> bool {
        self.wf()
    }

    open spec fn initial_model(document: Option<Document>) -> Self::V {
        UI::initial_model()
    }

    open spec fn document_dependent() -> bool {
        false
    }

    proof fn group_holds_its_value(self) {
    }

    proof fn same_contents_same_values(a: StyleStructGroup, b: StyleStructGroup) {
    }

    proof fn initial_values_without_document(document: Option<Document>) {
    }

    fn wrap(self) -> (group: StyleStructGroup) {
        StyleStructGroup::UI(self)
    }

    fn peek(group: &StyleStructGroup) -> (value: &Self) {
        match group {
            StyleStructGroup::UI(value) => value,
            _ => vstd::pervasive::unreached(),
        }
    }

    fn peek_mut(group: &mut StyleStructGroup) -> (value: &mut Self) {
        match group {
            StyleStructGroup::UI(value) => value,
            _ => vstd::pervasive::unreached(),
        }
    }

    fn initial(document: Option<&Document>) -> (value: Self) {
        UI::initial()
    }

    fn depends_on_document() -> (dependent: bool) {
        false
    }
}

} // verus!
