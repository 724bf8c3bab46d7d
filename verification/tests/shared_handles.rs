use app_units::Au;
use computed_style::{
    Background, Border, BorderStyle, DefaultStyles, Document, Font, Handle, Image, ImageField,
    Margin, LengthPercentageOrAuto, UI, Time,
};

#[test]
fn new_handle_holds_its_value() {
    let mut border = Border::initial();
    border.set_border_top_width(Au(60));
    border.set_border_top_style(BorderStyle::Solid);
    let handle = Handle::new(border);
    assert_eq!(handle.get().clone_border_top_width(), Au(60));
    assert_eq!(handle.get().clone_border_top_style(), BorderStyle::Solid);
}

#[test]
fn mutate_through_one_owner_leaves_the_other() {
    let mut a = Handle::new(Border::initial());
    let b = a.share();
    assert!(a.same_instance(&b));
    a.mutate().set_border_top_style(BorderStyle::Solid);
    assert_eq!(a.get().clone_border_top_style(), BorderStyle::Solid);
    assert_eq!(a.get().clone_border_top_width(), Au(180));
    assert_eq!(b.get().clone_border_top_style(), BorderStyle::NoLine);
    assert_eq!(b.get().clone_border_top_width(), Au(0));
    assert!(!a.same_instance(&b));
}

#[test]
fn mutate_a_sole_owner_writes_in_place() {
    let mut a = Handle::new(Margin::initial());
    a.mutate().set_margin_top(LengthPercentageOrAuto::Auto);
    let b = a.clone();
    assert!(a.same_instance(&b));
    assert_eq!(b.get().clone_margin_top(), LengthPercentageOrAuto::Auto);
    drop(b);
    a.mutate().set_margin_left(LengthPercentageOrAuto::Length(6));
    assert_eq!(a.get().clone_margin_top(), LengthPercentageOrAuto::Auto);
    assert_eq!(a.get().clone_margin_left(), LengthPercentageOrAuto::Length(6));
}

#[test]
fn many_sharers_see_their_own_values() {
    let mut first = Handle::new(UI::initial());
    let mut second = first.share();
    let third = first.share();
    first.mutate().transition_delay.set(&[Time::from_millis(10)]).unwrap();
    second
        .mutate()
        .transition_delay
        .set(&[Time::from_millis(20), Time::from_millis(30)])
        .unwrap();
    assert_eq!(first.get().transition_delay.at(1).millis(), 10);
    assert_eq!(second.get().transition_delay.at(1).millis(), 30);
    assert_eq!(third.get().transition_delay.at(1).millis(), 0);
    assert_eq!(third.get().transition_delay.count(), 1);
}

#[test]
fn deep_copy_on_write_covers_layers() {
    let mut a = Handle::new(Background::initial());
    a.mutate().image.set::<ImageField>(&[Image::Url(1), Image::Url(2)]).unwrap();
    let mut b = a.share();
    b.mutate().image.set::<ImageField>(&[Image::Gradient(9)]).unwrap();
    b.mutate().fill_arrays();
    assert_eq!(a.get().image.count::<ImageField>(), 2);
    assert_eq!(a.get().image.at::<ImageField>(1), Image::Url(2));
    assert_eq!(b.get().image.count::<ImageField>(), 1);
    assert_eq!(b.get().image.physical_len(), 1);
    assert_eq!(b.get().image.at::<ImageField>(1), Image::Gradient(9));
}

#[test]
fn leaked_handle_is_never_written_in_place() {
    let mut a = Handle::new_leaked(Border::initial());
    a.mutate().set_border_left_style(BorderStyle::Dotted);
    assert_eq!(a.get().clone_border_left_style(), BorderStyle::Dotted);
    let defaults = DefaultStyles::new();
    let mut mine = defaults.border.share();
    mine.mutate().set_border_left_style(BorderStyle::Dotted);
    assert_eq!(mine.get().clone_border_left_style(), BorderStyle::Dotted);
    assert_eq!(defaults.border.get().clone_border_left_style(), BorderStyle::NoLine);
    assert!(!mine.same_instance(&defaults.border));
}

#[test]
fn default_handles_are_equal_by_value() {
    let first = Handle::<Border>::default_for(None);
    let second = Handle::<Border>::default_for(None);
    assert!(!first.same_instance(&second));
    assert!(first.get().has_initial_values());
    assert!(second.get().has_initial_values());
    assert_eq!(first.get().top.specified_width(), second.get().top.specified_width());
    assert_eq!(first.get().clone_border_top_style(), second.get().clone_border_top_style());
}

#[test]
fn cached_defaults_are_one_instance() {
    let defaults = DefaultStyles::new();
    let first = defaults.default_for::<Border>(None);
    let second = defaults.default_for::<Border>(None);
    assert!(first.same_instance(&second));
    let document = Document { default_font_size: 1200, language: 7 };
    let third = defaults.default_for::<Border>(Some(&document));
    assert!(first.same_instance(&third));
    let ui = defaults.default_for::<UI>(Some(&document));
    assert!(ui.same_instance(&defaults.ui));
}

#[test]
fn document_dependent_defaults_are_built_for_the_document() {
    let defaults = DefaultStyles::new();
    let plain = defaults.default_for::<Font>(None);
    let again = defaults.default_for::<Font>(None);
    assert!(!plain.same_instance(&again));
    assert_eq!(plain.get().size.units, 960);
    assert_eq!(again.get().size.units, 960);
    assert_eq!(plain.get().clone_font_size(), again.get().clone_font_size());
    assert_eq!(plain.get().language.id, 0);
    let document = Document { default_font_size: 1200, language: 7 };
    let first = defaults.default_for::<Font>(Some(&document));
    let second = defaults.default_for::<Font>(Some(&document));
    assert!(!first.same_instance(&second));
    assert!(!first.same_instance(&plain));
    assert_eq!(first.get().size.units, 1200);
    assert_eq!(second.get().size.units, 1200);
    assert_eq!(first.get().language.id, 7);
    assert_eq!(first.get().used_size.units, 1200);
    assert_eq!(first.get().script_unconstrained_size.units, 1200);
}

#[test]
fn a_shared_handle_is_the_same_instance_both_ways() {
    let first = Handle::new(Border::initial());
    let second = first.share();
    let third = second.clone();
    assert!(first.same_instance(&first));
    assert!(first.same_instance(&second));
    assert!(second.same_instance(&first));
    assert!(third.same_instance(&first));
    assert!(first.same_instance(&third));
    let apart = Handle::new(Border::initial());
    assert!(!apart.same_instance(&first));
    assert!(!first.same_instance(&apart));
    assert!(apart.same_instance(&apart));
}

#[test]
fn kept_default_is_handed_out_not_copied() {
    let defaults = DefaultStyles::new();
    let document = Document { default_font_size: 700, language: 2 };
    let other = Document { default_font_size: 900, language: 3 };
    let first = defaults.default_for::<Margin>(Some(&document));
    let second = defaults.default_for::<Margin>(Some(&other));
    let third = defaults.default_for::<Margin>(None);
    assert!(first.same_instance(&defaults.margin));
    assert!(defaults.margin.same_instance(&first));
    assert!(first.same_instance(&second));
    assert!(second.same_instance(&third));
    let elsewhere = DefaultStyles::new();
    assert!(!elsewhere.default_for::<Margin>(None).same_instance(&first));
}
