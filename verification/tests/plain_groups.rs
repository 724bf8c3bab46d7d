use computed_style::{
    AlignFlags, BoxSizing, BoxStyle, Clear, ColorScheme, ColorSchemeFlags, ComputedJustifyItems,
    Contain, Content, Counters, Display, Float, InheritedUI, JustifyItems, LengthPercentage,
    LengthPercentageOrAuto, Margin, Padding, Position, ZIndex,
};

#[test]
fn set_display_sets_the_original_display_too() {
    let mut style = BoxStyle::initial();
    assert_eq!(style.clone_display(), Display::Inline);
    style.set_display(Display::Flex);
    assert_eq!(style.clone_display(), Display::Flex);
    assert_eq!(style.original_display, Display::Flex);
    style.set_adjusted_display(Display::Block, true);
    assert_eq!(style.clone_display(), Display::Block);
    assert_eq!(style.original_display, Display::Flex);
}

#[test]
fn copy_display_takes_the_adjusted_display() {
    let mut source = BoxStyle::initial();
    source.set_display(Display::InlineGrid);
    source.set_adjusted_display(Display::Grid, false);
    let mut target = BoxStyle::initial();
    target.copy_display_from(&source);
    assert_eq!(target.clone_display(), Display::Grid);
    assert_eq!(target.original_display, Display::Grid);
    target.reset_display(&BoxStyle::initial());
    assert_eq!(target.clone_display(), Display::Inline);
    assert_eq!(target.original_display, Display::Inline);
}

#[test]
fn set_contain_sets_the_effective_containment_too() {
    let mut style = BoxStyle::initial();
    let layout = Contain { bits: Contain::LAYOUT | Contain::PAINT };
    style.set_contain(layout);
    assert_eq!(style.clone_contain(), layout);
    assert_eq!(style.clone_effective_containment(), layout);
    let size = Contain { bits: Contain::INLINE_SIZE | Contain::BLOCK_SIZE };
    style.set_effective_containment(size);
    assert_eq!(style.clone_contain(), layout);
    assert_eq!(style.clone_effective_containment(), size);
    let mut target = BoxStyle::initial();
    target.copy_contain_from(&style);
    assert_eq!(target.clone_contain(), layout);
    assert_eq!(target.clone_effective_containment(), layout);
    target.reset_contain(&BoxStyle::initial());
    assert_eq!(target.clone_contain(), Contain { bits: Contain::NONE });
    assert_eq!(target.clone_effective_containment(), Contain { bits: Contain::NONE });
}

#[test]
fn float_and_clear_are_keywords() {
    let mut style = BoxStyle::initial();
    assert!(style.has_initial_values());
    style.set_float(Float::InlineStart);
    style.set_clear(Clear::Both);
    assert_eq!(style.clone_float(), Float::InlineStart);
    assert_eq!(style.clone_clear(), Clear::Both);
    assert_eq!(style.float.code(), 3);
    assert_eq!(style.clear.code(), 3);
    assert!(!style.has_initial_values());
    let mut other = BoxStyle::initial();
    other.copy_float_from(&style);
    other.copy_clear_from(&style);
    assert_eq!(other.clone_float(), Float::InlineStart);
    assert_eq!(other.clone_clear(), Clear::Both);
    other.reset_float(&BoxStyle::initial());
    other.reset_clear(&BoxStyle::initial());
    assert!(other.has_initial_values());
}

#[test]
fn computed_justify_items_keeps_what_was_specified() {
    let mut position = Position::initial();
    assert_eq!(position.clone_justify_items().specified.0.bits, AlignFlags::LEGACY);
    assert_eq!(position.clone_justify_items().computed.0.bits, AlignFlags::NORMAL);
    position.set_computed_justify_items(JustifyItems(AlignFlags { bits: AlignFlags::CENTER }));
    assert_eq!(position.clone_justify_items().specified.0.bits, AlignFlags::LEGACY);
    assert_eq!(position.clone_justify_items().computed.0.bits, AlignFlags::CENTER);
    position.set_computed_justify_items(JustifyItems(AlignFlags {
        bits: AlignFlags::LEGACY | AlignFlags::END,
    }));
    assert_eq!(position.clone_justify_items().computed.0.bits, 35);
}

#[test]
fn position_longhands() {
    let mut position = Position::initial();
    assert!(position.has_initial_values());
    let stretch = ComputedJustifyItems {
        specified: JustifyItems(AlignFlags { bits: AlignFlags::STRETCH }),
        computed: JustifyItems(AlignFlags { bits: AlignFlags::STRETCH }),
    };
    position.set_justify_items(stretch);
    position.set_z_index(ZIndex::Integer(7));
    position.set_box_sizing(BoxSizing::BorderBox);
    assert_eq!(position.clone_justify_items(), stretch);
    assert_eq!(position.clone_z_index(), ZIndex::Integer(7));
    assert_eq!(position.clone_box_sizing(), BoxSizing::BorderBox);
    let mut other = Position::initial();
    other.copy_justify_items_from(&position);
    other.copy_z_index_from(&position);
    other.copy_box_sizing_from(&position);
    assert_eq!(other.clone_justify_items(), stretch);
    assert_eq!(other.clone_z_index(), ZIndex::Integer(7));
    assert_eq!(other.clone_box_sizing(), BoxSizing::BorderBox);
    assert!(!other.has_initial_values());
    other.reset_justify_items(&Position::initial());
    other.reset_z_index(&Position::initial());
    other.reset_box_sizing(&Position::initial());
    assert!(other.has_initial_values());
}

#[test]
fn margin_sides() {
    let mut margin = Margin::initial();
    assert!(margin.has_initial_values());
    margin.set_margin_top(LengthPercentageOrAuto::Auto);
    margin.set_margin_right(LengthPercentageOrAuto::Length(60));
    margin.set_margin_bottom(LengthPercentageOrAuto::Percentage(250));
    margin.set_margin_left(LengthPercentageOrAuto::Length(-60));
    assert_eq!(margin.clone_margin_top(), LengthPercentageOrAuto::Auto);
    assert_eq!(margin.clone_margin_right(), LengthPercentageOrAuto::Length(60));
    assert_eq!(margin.clone_margin_bottom(), LengthPercentageOrAuto::Percentage(250));
    assert_eq!(margin.clone_margin_left(), LengthPercentageOrAuto::Length(-60));
    let mut other = Margin::initial();
    other.copy_margin_top_from(&margin);
    other.copy_margin_right_from(&margin);
    other.copy_margin_bottom_from(&margin);
    other.copy_margin_left_from(&margin);
    assert_eq!(other, margin);
    other.reset_margin_top(&Margin::initial());
    other.reset_margin_right(&Margin::initial());
    other.reset_margin_bottom(&Margin::initial());
    assert!(!other.has_initial_values());
    other.reset_margin_left(&Margin::initial());
    assert_eq!(other, Margin::initial());
    assert!(other.has_initial_values());
}

#[test]
fn padding_sides() {
    let mut padding = Padding::initial();
    padding.set_padding_top(LengthPercentage::Length(1));
    padding.set_padding_right(LengthPercentage::Length(2));
    padding.set_padding_bottom(LengthPercentage::Percentage(3));
    padding.set_padding_left(LengthPercentage::Length(4));
    assert_eq!(padding.clone_padding_top(), LengthPercentage::Length(1));
    assert_eq!(padding.clone_padding_right(), LengthPercentage::Length(2));
    assert_eq!(padding.clone_padding_bottom(), LengthPercentage::Percentage(3));
    assert_eq!(padding.clone_padding_left(), LengthPercentage::Length(4));
    let mut other = Padding::initial();
    other.copy_padding_top_from(&padding);
    other.copy_padding_right_from(&padding);
    other.copy_padding_bottom_from(&padding);
    other.copy_padding_left_from(&padding);
    assert_eq!(other, padding);
    assert!(!other.has_initial_values());
    other.reset_padding_top(&Padding::initial());
    other.reset_padding_right(&Padding::initial());
    other.reset_padding_bottom(&Padding::initial());
    other.reset_padding_left(&Padding::initial());
    assert!(other.has_initial_values());
}

#[test]
fn color_scheme_bits_are_read_from_the_scheme() {
    let mut group = InheritedUI::initial();
    assert_eq!(group.color_scheme_bits(), ColorSchemeFlags { bits: 0 });
    let dark_only = ColorScheme {
        bits: ColorSchemeFlags { bits: ColorSchemeFlags::DARK | ColorSchemeFlags::ONLY },
    };
    group.set_color_scheme(dark_only);
    assert_eq!(group.color_scheme_bits().bits, 6);
    assert_eq!(group.clone_color_scheme(), dark_only);
    let mut other = InheritedUI::initial();
    other.copy_color_scheme_from(&group);
    assert_eq!(other.color_scheme_bits().bits, 6);
    other.reset_color_scheme(&InheritedUI::initial());
    assert!(other.has_initial_values());
    assert_eq!(
        ColorSchemeFlags { bits: ColorSchemeFlags::LIGHT }.bits,
        1
    );
}

#[test]
fn content_is_items_or_not() {
    let mut counters = Counters::initial();
    assert!(counters.has_initial_values());
    assert!(!counters.clone_content().is_items());
    assert!(counters.ineffective_content_property());
    counters.set_content(Content::Items(12));
    assert!(counters.clone_content().is_items());
    assert!(!counters.ineffective_content_property());
    let mut other = Counters::initial();
    other.copy_content_from(&counters);
    assert_eq!(other.clone_content(), Content::Items(12));
    other.reset_content(&Counters::initial());
    assert_eq!(other.clone_content(), Content::Normal);
}
