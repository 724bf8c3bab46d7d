use app_units::Au;
use computed_style::{
    assert_initial_values_match, Atom, Background, Border, BorderStyle, BoxStyle, Column,
    ComputedCustomProperties, ComputedValueFlags, ComputedValues, ComputedValuesInner, Content,
    Counters, DefaultStyles, Display, Document, Font, Handle, Image, ImageField, InheritedUI,
    Margin, Outline, Padding, Position, PseudoElement, PseudoStyleType, StrongRuleNode, Svg,
    Time, WritingMode, Zoom, UI,
};

fn document() -> Document {
    Document { default_font_size: 960, language: 1 }
}

fn fresh_inner() -> ComputedValuesInner {
    ComputedValuesInner::new(
        ComputedCustomProperties::new(),
        WritingMode::empty(),
        Zoom { value: Zoom::ONE },
        ComputedValueFlags::empty(),
        None,
        None,
        Handle::new(Background::initial()),
        Handle::new(Border::initial()),
        Handle::new(BoxStyle::initial()),
        Handle::new(Column::initial()),
        Handle::new(Counters::initial()),
        Handle::new(Font::initial(None)),
        Handle::new(InheritedUI::initial()),
        Handle::new(Margin::initial()),
        Handle::new(Outline::initial()),
        Handle::new(Padding::initial()),
        Handle::new(Position::initial()),
        Handle::new(Svg::initial()),
        Handle::new(UI::initial()),
    )
}

#[test]
fn new_store_holds_what_it_was_given() {
    let mut custom = ComputedCustomProperties::new();
    custom.insert(Atom { id: 4 }, 40);
    let mut border = Border::initial();
    border.set_border_top_style(BorderStyle::Ridge);
    let border = Handle::new(border);
    let values = ComputedValues::new(
        Some(&PseudoElement::Before),
        custom,
        WritingMode { bits: 3 },
        Zoom { value: 80 },
        ComputedValueFlags { bits: 9 },
        Some(StrongRuleNode { id: 77 }),
        None,
        Handle::new(Background::initial()),
        border.share(),
        Handle::new(BoxStyle::initial()),
        Handle::new(Column::initial()),
        Handle::new(Counters::initial()),
        Handle::new(Font::initial(None)),
        Handle::new(InheritedUI::initial()),
        Handle::new(Margin::initial()),
        Handle::new(Outline::initial()),
        Handle::new(Padding::initial()),
        Handle::new(Position::initial()),
        Handle::new(Svg::initial()),
        Handle::new(UI::initial()),
    );
    let style = ComputedValues::get(&values);
    assert_eq!(style.pseudo_type, PseudoStyleType::Before);
    assert_eq!(style.inner().custom_properties.get(Atom { id: 4 }), Some(40));
    assert_eq!(style.inner().writing_mode, WritingMode { bits: 3 });
    assert_eq!(style.inner().effective_zoom, Zoom { value: 80 });
    assert_eq!(style.inner().flags, ComputedValueFlags { bits: 9 });
    assert_eq!(style.inner().rules, Some(StrongRuleNode { id: 77 }));
    assert!(style.inner().visited_style().is_none());
    assert_eq!(style.inner().get_border().clone_border_top_style(), BorderStyle::Ridge);
    assert!(style.inner().clone_border().same_instance(&border));
}

#[test]
fn end_to_end_border_top() {
    let mut first = fresh_inner();
    first.mutate_border().set_border_top_width(Au(120));
    first.mutate_border().set_border_top_style(BorderStyle::Solid);
    assert_eq!(first.get_border().clone_border_top_width(), Au(120));
    assert!(first.get_border().border_top_has_nonzero_width());
    first.mutate_border().set_border_top_style(BorderStyle::Hidden);
    assert!(!first.get_border().border_top_has_nonzero_width());
    let mut other = fresh_inner();
    other.mutate_border().copy_border_top_width_from(first.get_border());
    assert_eq!(other.get_border().top.specified_width(), Au(120));
    other.mutate_border().set_border_top_style(BorderStyle::Solid);
    assert_eq!(other.get_border().clone_border_top_width(), Au(120));
    assert!(other.get_border().border_top_has_nonzero_width());
    assert!(!first.get_border().border_top_has_nonzero_width());
}

#[test]
fn mutate_in_a_store_leaves_sharers_alone() {
    let parent = fresh_inner();
    let mut child = parent.clone();
    assert!(child.clone_border().same_instance(&parent.clone_border()));
    child.mutate_border().set_border_left_style(BorderStyle::Double);
    assert_eq!(child.get_border().clone_border_left_style(), BorderStyle::Double);
    assert_eq!(parent.get_border().clone_border_left_style(), BorderStyle::NoLine);
    assert!(!child.clone_border().same_instance(&parent.clone_border()));
    // Groups that were not written are still shared.
    assert!(child.clone_margin().same_instance(&parent.clone_margin()));
    assert!(child.clone_ui().same_instance(&parent.clone_ui()));
}

#[test]
fn every_category_can_be_read_shared_and_written() {
    let mut style = fresh_inner();
    style.mutate_background().image.set::<ImageField>(&[Image::Url(2)]).unwrap();
    style.mutate_box().set_display(Display::Grid);
    style.mutate_column().set_column_rule_style(BorderStyle::Solid);
    style.mutate_counters().set_content(Content::Items(3));
    style.mutate_font().set__x_lang(computed_style::XLang(Atom { id: 2 }));
    style.mutate_inherited_ui().set_color_scheme(computed_style::ColorScheme {
        bits: computed_style::ColorSchemeFlags { bits: 3 },
    });
    style.mutate_margin().set_margin_top(computed_style::LengthPercentageOrAuto::Auto);
    style.mutate_outline().set_outline_style(computed_style::OutlineStyle::Auto);
    style.mutate_padding().set_padding_left(computed_style::LengthPercentage::Length(9));
    style.mutate_position().set_z_index(computed_style::ZIndex::Integer(-1));
    style.mutate_svg().mask.set::<ImageField>(&[Image::Url(4), Image::Url(5)]).unwrap();
    style.mutate_ui().transition_delay.set(&[Time::from_millis(3)]).unwrap();
    assert_eq!(style.get_background().image.at::<ImageField>(0), Image::Url(2));
    assert_eq!(style.get_box().clone_display(), Display::Grid);
    assert!(style.get_column().column_rule_has_nonzero_width());
    assert!(!style.ineffective_content_property());
    assert_eq!(style.get_font().language, Atom { id: 2 });
    assert_eq!(style.get_inherited_ui().color_scheme_bits().bits, 3);
    assert_eq!(
        style.get_margin().clone_margin_top(),
        computed_style::LengthPercentageOrAuto::Auto
    );
    assert!(style.get_outline().outline_has_nonzero_width());
    assert_eq!(
        style.get_padding().clone_padding_left(),
        computed_style::LengthPercentage::Length(9)
    );
    assert_eq!(style.get_position().clone_z_index(), computed_style::ZIndex::Integer(-1));
    assert_eq!(style.get_svg().mask.count::<ImageField>(), 2);
    assert_eq!(style.get_ui().transition_delay.at(0).millis(), 3);
    assert_eq!(style.clone_background().get().image.at::<ImageField>(0), Image::Url(2));
    assert_eq!(style.clone_box().get().clone_display(), Display::Grid);
    assert!(style.clone_column().get().column_rule_has_nonzero_width());
    assert_eq!(style.clone_counters().get().clone_content(), Content::Items(3));
    assert_eq!(style.clone_font().get().language, Atom { id: 2 });
    assert_eq!(style.clone_inherited_ui().get().color_scheme_bits().bits, 3);
    assert!(style.clone_outline().get().outline_has_nonzero_width());
    assert_eq!(style.clone_svg().get().mask.count::<ImageField>(), 2);
    assert_eq!(style.clone_ui().get().transition_delay.at(0).millis(), 3);
    assert_eq!(
        style.clone_padding().get().clone_padding_left(),
        computed_style::LengthPercentage::Length(9)
    );
    assert_eq!(
        style.clone_position().get().clone_z_index(),
        computed_style::ZIndex::Integer(-1)
    );
}

#[test]
fn ineffective_content_is_anything_but_items() {
    let mut style = fresh_inner();
    assert!(style.ineffective_content_property());
    style.mutate_counters().set_content(Content::NoContent);
    assert!(style.ineffective_content_property());
    assert!(style.get_counters().ineffective_content_property());
    style.mutate_counters().set_content(Content::Items(1));
    assert!(!style.ineffective_content_property());
    assert!(!style.get_counters().ineffective_content_property());
}

#[test]
fn pseudo_tag_is_stored_at_construction() {
    let element = fresh_inner().into_values(None);
    assert!(!element.is_pseudo_style());
    assert_eq!(element.pseudo(), None);
    assert!(!element.is_first_line_style());
    let first_line = fresh_inner().into_values(Some(&PseudoElement::FirstLine));
    assert!(first_line.is_pseudo_style());
    assert_eq!(first_line.pseudo(), Some(PseudoElement::FirstLine));
    assert!(first_line.is_first_line_style());
    let marker = fresh_inner().to_outer(Some(&PseudoElement::Marker));
    assert!(ComputedValues::get(&marker).is_pseudo_style());
    assert_eq!(ComputedValues::get(&marker).pseudo(), Some(PseudoElement::Marker));
    assert!(!ComputedValues::get(&marker).is_first_line_style());
}

#[test]
fn pseudo_tags_round_trip() {
    let all = [
        PseudoElement::Before,
        PseudoElement::After,
        PseudoElement::Marker,
        PseudoElement::FirstLine,
        PseudoElement::FirstLetter,
        PseudoElement::Placeholder,
        PseudoElement::Selection,
        PseudoElement::Backdrop,
    ];
    for pseudo in all {
        assert_ne!(pseudo.pseudo_type(), PseudoStyleType::NotPseudo);
        assert_eq!(PseudoElement::from_pseudo_type(pseudo.pseudo_type()), Some(pseudo));
    }
    assert_eq!(PseudoElement::from_pseudo_type(PseudoStyleType::NotPseudo), None);
}

#[test]
fn display_changed_from_none_has_a_direction() {
    let mut hidden = fresh_inner();
    hidden.mutate_box().set_display(Display::NoBox);
    let hidden = hidden.into_values(None);
    let mut shown = fresh_inner();
    shown.mutate_box().set_display(Display::Block);
    let shown = shown.into_values(None);
    assert!(shown.is_display_property_changed_from_none(Some(&hidden)));
    assert!(!hidden.is_display_property_changed_from_none(Some(&shown)));
    assert!(!hidden.is_display_property_changed_from_none(Some(&hidden)));
    assert!(!shown.is_display_property_changed_from_none(Some(&shown)));
    assert!(!shown.is_display_property_changed_from_none(None));
    assert!(!hidden.is_display_property_changed_from_none(None));
}

#[test]
fn display_change_reads_the_adjusted_display() {
    let mut old_style = fresh_inner();
    old_style.mutate_box().set_display(Display::Inline);
    old_style.mutate_box().set_adjusted_display(Display::NoBox, false);
    let old_style = old_style.into_values(None);
    let new_style = fresh_inner().into_values(None);
    assert!(new_style.is_display_property_changed_from_none(Some(&old_style)));
}

#[test]
fn visited_style_is_owned_by_the_store() {
    let mut visited = fresh_inner();
    visited.mutate_border().set_border_top_style(BorderStyle::Dashed);
    let visited = visited.into_values(None);
    let mut style = fresh_inner();
    style.visited_style = Some(Box::new(visited));
    let seen = style.visited_style().unwrap();
    assert_eq!(seen.inner().get_border().clone_border_top_style(), BorderStyle::Dashed);
    assert!(seen.inner().visited_style().is_none());
    let copy = style.clone();
    let seen_in_copy = copy.visited_style().unwrap();
    assert_eq!(seen_in_copy.inner().get_border().clone_border_top_style(), BorderStyle::Dashed);
    assert!(seen_in_copy.inner().clone_border().same_instance(&seen.inner().clone_border()));
}

#[test]
fn default_values_are_the_initial_values() {
    let defaults = DefaultStyles::new();
    let values = ComputedValues::default_values(&defaults, &document());
    let style = ComputedValues::get(&values);
    assert!(!style.is_pseudo_style());
    assert!(assert_initial_values_match(style));
    assert_eq!(style.inner().custom_properties.len(), 0);
    assert_eq!(style.inner().writing_mode, WritingMode::empty());
    assert_eq!(style.inner().effective_zoom, Zoom { value: 64 });
    assert_eq!(style.inner().flags, ComputedValueFlags::empty());
    assert_eq!(style.inner().rules, None);
    assert!(style.inner().visited_style().is_none());
    assert_eq!(style.inner().get_font().language, Atom { id: 1 });
    assert_eq!(style.inner().get_border().clone_border_top_width(), Au(0));
    assert_eq!(style.inner().get_outline().clone_outline_width(), Au(0));
}

#[test]
fn default_values_share_the_cached_groups() {
    let defaults = DefaultStyles::new();
    let first = ComputedValues::default_values(&defaults, &document());
    let second = ComputedValues::default_values(&defaults, &document());
    let first = ComputedValues::get(&first);
    let second = ComputedValues::get(&second);
    assert!(first.inner().clone_border().same_instance(&second.inner().clone_border()));
    assert!(first.inner().clone_ui().same_instance(&defaults.ui));
    assert!(!first.inner().clone_font().same_instance(&second.inner().clone_font()));
    assert_eq!(
        first.inner().get_font().clone_font_size(),
        second.inner().get_font().clone_font_size()
    );
}

#[test]
fn initial_values_do_not_match_once_a_property_is_set() {
    let mut style = fresh_inner();
    assert!(assert_initial_values_match(&fresh_inner().into_values(None)));
    style.mutate_ui().animation_delay.set(&[Time::from_millis(1)]).unwrap();
    assert!(!assert_initial_values_match(&style.into_values(None)));
    let mut style = fresh_inner();
    style.mutate_svg().mask.set::<ImageField>(&[Image::Url(1)]).unwrap();
    assert!(!assert_initial_values_match(&style.into_values(None)));
    // Widths that depend on a style are not held against initial values.
    let mut style = fresh_inner();
    style.mutate_border().set_border_top_width(Au(1));
    style.mutate_outline().set_outline_width(Au(1));
    style.mutate_column().set_column_rule_width(Au(1));
    assert!(assert_initial_values_match(&style.into_values(None)));
}

#[test]
fn sealed_style_is_shared_not_copied() {
    let values = fresh_inner().to_outer(None);
    let second = ComputedValues::share(&values);
    let a = ComputedValues::get(&values);
    let b = ComputedValues::get(&second);
    assert!(std::ptr::eq(a, b));
    assert!(a.inner().clone_border().same_instance(&b.inner().clone_border()));
}

#[test]
fn custom_properties_are_a_map() {
    let mut first = ComputedCustomProperties::new();
    assert_eq!(first.len(), 0);
    assert_eq!(first.get(Atom { id: 1 }), None);
    first.insert(Atom { id: 1 }, 10);
    first.insert(Atom { id: 2 }, 20);
    first.insert(Atom { id: 1 }, 11);
    assert_eq!(first.len(), 2);
    assert_eq!(first.get(Atom { id: 1 }), Some(11));
    assert_eq!(first.get(Atom { id: 2 }), Some(20));
    assert_eq!(first.get(Atom { id: 3 }), None);
    let mut second = ComputedCustomProperties::new();
    second.insert(Atom { id: 2 }, 20);
    second.insert(Atom { id: 1 }, 11);
    for id in 0..4 {
        assert_eq!(first.get(Atom { id }), second.get(Atom { id }));
    }
    let copy = first.clone();
    first.insert(Atom { id: 3 }, 30);
    assert_eq!(copy.len(), 2);
    assert_eq!(copy.get(Atom { id: 3 }), None);
}

#[test]
fn sealed_style_reads_its_parts_directly() {
    let mut style = fresh_inner();
    style.mutate_box().set_display(Display::Table);
    let values = style.to_outer(Some(&PseudoElement::After));
    let sealed = ComputedValues::get(&values);
    assert_eq!(sealed.get_box().clone_display(), Display::Table);
    assert!(sealed.ineffective_content_property());
    assert!(sealed.visited_style().is_none());
    assert_eq!(sealed.pseudo(), Some(PseudoElement::After));
}

#[test]
fn new_store_keeps_its_visited_style() {
    let mut visited = fresh_inner();
    visited.mutate_margin().set_margin_top(computed_style::LengthPercentageOrAuto::Auto);
    let visited = visited.into_values(None);
    let values = ComputedValues::new(
        None,
        ComputedCustomProperties::new(),
        WritingMode::empty(),
        Zoom { value: Zoom::ONE },
        ComputedValueFlags::empty(),
        None,
        Some(Box::new(visited)),
        Handle::new(Background::initial()),
        Handle::new(Border::initial()),
        Handle::new(BoxStyle::initial()),
        Handle::new(Column::initial()),
        Handle::new(Counters::initial()),
        Handle::new(Font::initial(None)),
        Handle::new(InheritedUI::initial()),
        Handle::new(Margin::initial()),
        Handle::new(Outline::initial()),
        Handle::new(Padding::initial()),
        Handle::new(Position::initial()),
        Handle::new(Svg::initial()),
        Handle::new(UI::initial()),
    );
    let style = ComputedValues::get(&values);
    assert!(!style.is_pseudo_style());
    let seen = style.visited_style().unwrap();
    assert_eq!(
        seen.get_margin().clone_margin_top(),
        computed_style::LengthPercentageOrAuto::Auto
    );
    assert_eq!(
        style.get_margin().clone_margin_top(),
        computed_style::LengthPercentageOrAuto::Length(0)
    );
}

#[test]
fn a_copy_shares_every_group() {
    let mut visited = fresh_inner();
    visited.mutate_border().set_border_top_style(BorderStyle::Dotted);
    let mut style = fresh_inner();
    style.visited_style = Some(Box::new(visited.into_values(None)));
    let copy = style.clone();
    assert!(copy.background.same_instance(&style.background));
    assert!(copy.border.same_instance(&style.border));
    assert!(copy.box_style.same_instance(&style.box_style));
    assert!(copy.column.same_instance(&style.column));
    assert!(copy.counters.same_instance(&style.counters));
    assert!(copy.font.same_instance(&style.font));
    assert!(copy.inherited_ui.same_instance(&style.inherited_ui));
    assert!(copy.margin.same_instance(&style.margin));
    assert!(copy.outline.same_instance(&style.outline));
    assert!(copy.padding.same_instance(&style.padding));
    assert!(copy.position.same_instance(&style.position));
    assert!(copy.svg.same_instance(&style.svg));
    assert!(copy.ui.same_instance(&style.ui));
    assert!(style.ui.same_instance(&copy.clone_ui()));
    let seen = style.visited_style().unwrap();
    let seen_in_copy = copy.visited_style().unwrap();
    assert!(seen_in_copy.border.same_instance(&seen.border));
    assert!(seen_in_copy.ui.same_instance(&seen.ui));
}

#[test]
fn default_styles_hold_the_kept_groups() {
    let defaults = DefaultStyles::new();
    let first = ComputedValues::default_values(&defaults, &document());
    let second = ComputedValues::default_values(
        &defaults,
        &Document { default_font_size: 1200, language: 9 },
    );
    let first = ComputedValues::get(&first);
    let second = ComputedValues::get(&second);
    assert!(first.background.same_instance(&defaults.background));
    assert!(first.border.same_instance(&defaults.border));
    assert!(first.box_style.same_instance(&defaults.box_style));
    assert!(first.column.same_instance(&defaults.column));
    assert!(first.counters.same_instance(&defaults.counters));
    assert!(first.inherited_ui.same_instance(&defaults.inherited_ui));
    assert!(first.margin.same_instance(&defaults.margin));
    assert!(first.outline.same_instance(&defaults.outline));
    assert!(first.padding.same_instance(&defaults.padding));
    assert!(first.position.same_instance(&defaults.position));
    assert!(first.svg.same_instance(&defaults.svg));
    assert!(first.ui.same_instance(&defaults.ui));
    assert!(first.border.same_instance(&second.border));
    assert!(second.svg.same_instance(&first.svg));
    assert!(!first.font.same_instance(&second.font));
    assert_eq!(second.get_font().size.units, 1200);
}
