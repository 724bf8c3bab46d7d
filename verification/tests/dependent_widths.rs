use app_units::Au;
use computed_style::{
    Border, BorderStyle, BoxDecorationBreak, Column, ColumnCount, ColumnFill, DependentWidth,
    Length, Outline, OutlineStyle, Side,
};

#[test]
fn new_pair_is_canonical() {
    let visible = DependentWidth::new(BorderStyle::Dotted, Au(90));
    assert_eq!(visible.clone_style(), BorderStyle::Dotted);
    assert_eq!(visible.specified_width(), Au(90));
    assert_eq!(visible.clone_width(), Au(90));
    let hidden = DependentWidth::new(BorderStyle::Hidden, Au(90));
    assert_eq!(hidden.specified_width(), Au(90));
    assert_eq!(hidden.clone_width(), Au(0));
    assert!(!hidden.has_nonzero_width());
}

#[test]
fn hidden_and_none_yield_no_effective_width() {
    for style in [BorderStyle::Hidden, BorderStyle::NoLine] {
        let mut pair = DependentWidth::new(BorderStyle::Solid, Au(300));
        assert_eq!(pair.clone_width(), Au(300));
        pair.set_style(style);
        assert_eq!(pair.clone_width(), Au(0));
        assert_eq!(pair.specified_width(), Au(300));
        assert!(!pair.has_nonzero_width());
    }
}

#[test]
fn visible_style_adopts_the_specified_width() {
    let visible = [
        BorderStyle::Inset,
        BorderStyle::Groove,
        BorderStyle::Outset,
        BorderStyle::Ridge,
        BorderStyle::Dotted,
        BorderStyle::Dashed,
        BorderStyle::Solid,
        BorderStyle::Double,
    ];
    for style in visible {
        let mut pair = DependentWidth::new(BorderStyle::Hidden, Au(1));
        pair.set_width(Au(77));
        assert_eq!(pair.clone_width(), Au(0));
        pair.set_style(style);
        assert_eq!(pair.clone_width(), Au(77));
        assert!(pair.has_nonzero_width());
    }
}

#[test]
fn setting_the_width_alone_leaves_the_effective_width() {
    let mut pair = DependentWidth::new(BorderStyle::Solid, Au(60));
    pair.set_width(Au(240));
    assert_eq!(pair.specified_width(), Au(240));
    assert_eq!(pair.clone_width(), Au(60));
    pair.set_style(BorderStyle::Solid);
    assert_eq!(pair.clone_width(), Au(240));
}

#[test]
fn zero_width_under_a_visible_style_is_not_nonzero() {
    let mut pair = DependentWidth::new(BorderStyle::Solid, Au(0));
    assert!(!pair.has_nonzero_width());
    pair.set_width(Au(-5));
    pair.set_style(BorderStyle::Dashed);
    assert!(pair.has_nonzero_width());
    assert_eq!(pair.clone_width(), Au(-5));
}

#[test]
fn copy_width_takes_specified_not_effective() {
    let mut source = DependentWidth::new(BorderStyle::Solid, Au(120));
    source.set_style(BorderStyle::Hidden);
    assert_eq!(source.clone_width(), Au(0));
    let mut target = DependentWidth::new(BorderStyle::Solid, Au(5));
    target.copy_width_from(&source);
    assert_eq!(target.specified_width(), Au(120));
    assert_eq!(target.clone_width(), Au(120));
    let mut hidden_target = DependentWidth::new(BorderStyle::NoLine, Au(5));
    hidden_target.reset_width(&source);
    assert_eq!(hidden_target.specified_width(), Au(120));
    assert_eq!(hidden_target.clone_width(), Au(0));
    hidden_target.set_style(BorderStyle::Solid);
    assert_eq!(hidden_target.clone_width(), Au(120));
}

#[test]
fn copy_style_rederives_from_own_specified_width() {
    let source = DependentWidth::new(BorderStyle::Double, Au(999));
    let mut target = DependentWidth::new(BorderStyle::Hidden, Au(42));
    target.copy_style_from(&source);
    assert_eq!(target.clone_style(), BorderStyle::Double);
    assert_eq!(target.clone_width(), Au(42));
    let hidden = DependentWidth::new(BorderStyle::Hidden, Au(999));
    target.reset_style(&hidden);
    assert_eq!(target.clone_style(), BorderStyle::Hidden);
    assert_eq!(target.clone_width(), Au(0));
    assert_eq!(target.specified_width(), Au(42));
}

#[test]
fn initial_border_has_medium_specified_and_nothing_effective() {
    let border = Border::initial();
    for side in [Side::Top, Side::Right, Side::Bottom, Side::Left] {
        let pair = border.side(side);
        assert_eq!(pair.clone_style(), BorderStyle::NoLine);
        assert_eq!(pair.specified_width(), Au(180));
        assert_eq!(pair.clone_width(), Au(0));
    }
    assert_eq!(border.clone_box_decoration_break(), BoxDecorationBreak::Slice);
    assert!(border.has_initial_values());
}

#[test]
fn border_sides_are_independent() {
    let mut border = Border::initial();
    border.set_border_left_width(Au(60));
    border.set_border_left_style(BorderStyle::Solid);
    border.set_border_bottom_style(BorderStyle::Dotted);
    assert_eq!(border.clone_border_left_width(), Au(60));
    assert_eq!(border.clone_border_bottom_width(), Au(180));
    assert_eq!(border.clone_border_top_width(), Au(0));
    assert_eq!(border.clone_border_right_width(), Au(0));
    assert!(border.border_left_has_nonzero_width());
    assert!(border.border_bottom_has_nonzero_width());
    assert!(!border.border_top_has_nonzero_width());
    assert!(!border.border_right_has_nonzero_width());
    assert_eq!(border.clone_border_left_style(), BorderStyle::Solid);
    assert_eq!(border.clone_border_right_style(), BorderStyle::NoLine);
    assert!(!border.has_initial_values());
}

#[test]
fn border_top_solid_then_hidden_then_copied() {
    let mut first = Border::initial();
    first.set_border_top_width(Au(120));
    first.set_border_top_style(BorderStyle::Solid);
    assert_eq!(first.clone_border_top_width(), Au(120));
    assert!(first.border_top_has_nonzero_width());
    first.set_border_top_style(BorderStyle::Hidden);
    assert!(!first.border_top_has_nonzero_width());
    let mut other = Border::initial();
    other.copy_border_top_width_from(&first);
    assert_eq!(other.top.specified_width(), Au(120));
    other.set_border_top_style(BorderStyle::Solid);
    assert_eq!(other.clone_border_top_width(), Au(120));
    assert!(other.border_top_has_nonzero_width());
}

#[test]
fn border_copy_and_reset_per_side() {
    let mut source = Border::initial();
    source.set_border_right_width(Au(30));
    source.set_border_right_style(BorderStyle::Groove);
    source.set_border_bottom_width(Au(40));
    source.set_border_bottom_style(BorderStyle::Ridge);
    let mut target = Border::initial();
    target.copy_border_right_style_from(&source);
    assert_eq!(target.clone_border_right_style(), BorderStyle::Groove);
    assert_eq!(target.clone_border_right_width(), Au(180));
    target.reset_border_right_width(&source);
    assert_eq!(target.clone_border_right_width(), Au(30));
    target.reset_border_bottom_style(&source);
    target.copy_border_bottom_width_from(&source);
    assert_eq!(target.clone_border_bottom_style(), BorderStyle::Ridge);
    assert_eq!(target.clone_border_bottom_width(), Au(40));
    target.copy_border_left_style_from(&source);
    target.reset_border_top_style(&source);
    target.copy_border_left_width_from(&source);
    target.reset_border_top_width(&source);
    assert_eq!(target.clone_border_left_style(), BorderStyle::NoLine);
    assert_eq!(target.clone_border_top_width(), Au(0));
}

#[test]
fn box_decoration_break_is_stored_and_read_back() {
    let mut border = Border::initial();
    border.set_box_decoration_break(BoxDecorationBreak::Clone);
    assert_eq!(border.clone_box_decoration_break(), BoxDecorationBreak::Clone);
    assert_eq!(border.box_decoration_break.code(), 1);
    let mut other = Border::initial();
    other.copy_box_decoration_break_from(&border);
    assert_eq!(other.clone_box_decoration_break(), BoxDecorationBreak::Clone);
    other.reset_box_decoration_break(&Border::initial());
    assert_eq!(other.clone_box_decoration_break(), BoxDecorationBreak::Slice);
}

#[test]
fn sides_are_numbered_top_right_bottom_left() {
    assert_eq!(Side::Top.index(), 0);
    assert_eq!(Side::Right.index(), 1);
    assert_eq!(Side::Bottom.index(), 2);
    assert_eq!(Side::Left.index(), 3);
    for index in 0..4 {
        assert_eq!(Side::from_index(index).unwrap().index(), index);
    }
    assert_eq!(Side::from_index(4), None);
    assert_eq!(Side::from_index(usize::MAX), None);
}

#[test]
fn outline_style_auto_draws_a_line() {
    let mut outline = Outline::initial();
    assert!(!outline.outline_has_nonzero_width());
    assert_eq!(outline.clone_outline_style(), OutlineStyle::BorderStyle(BorderStyle::NoLine));
    outline.set_outline_style(OutlineStyle::Auto);
    assert!(outline.outline_has_nonzero_width());
    assert_eq!(outline.clone_outline_width(), Au(180));
    outline.set_outline_style(OutlineStyle::BorderStyle(BorderStyle::Hidden));
    assert!(!outline.outline_has_nonzero_width());
    assert_eq!(outline.clone_outline_width(), Au(0));
    outline.set_outline_width(Au(600));
    assert_eq!(outline.clone_outline_width(), Au(0));
    outline.set_outline_style(OutlineStyle::BorderStyle(BorderStyle::Solid));
    assert_eq!(outline.clone_outline_width(), Au(600));
}

#[test]
fn outline_copy_and_reset() {
    let mut source = Outline::initial();
    source.set_outline_width(Au(66));
    source.set_outline_style(OutlineStyle::BorderStyle(BorderStyle::Dashed));
    source.set_outline_offset(Length { units: -12 });
    let mut target = Outline::initial();
    target.copy_outline_style_from(&source);
    assert_eq!(target.clone_outline_style(), OutlineStyle::BorderStyle(BorderStyle::Dashed));
    assert_eq!(target.clone_outline_width(), Au(180));
    target.copy_outline_width_from(&source);
    assert_eq!(target.clone_outline_width(), Au(66));
    target.copy_outline_offset_from(&source);
    assert_eq!(target.clone_outline_offset(), Length { units: -12 });
    let initial = Outline::initial();
    target.reset_outline_style(&initial);
    target.reset_outline_width(&initial);
    target.reset_outline_offset(&initial);
    assert!(target.has_initial_values());
    assert_eq!(target.clone_outline_width(), Au(0));
    assert_eq!(target.outline.specified_width(), Au(180));
}

#[test]
fn column_rule_follows_its_style() {
    let mut column = Column::initial();
    assert!(!column.column_rule_has_nonzero_width());
    column.set_column_rule_width(Au(15));
    column.set_column_rule_style(BorderStyle::Double);
    assert!(column.column_rule_has_nonzero_width());
    assert_eq!(column.clone_column_rule_width(), Au(15));
    assert_eq!(column.clone_column_rule_style(), BorderStyle::Double);
    column.set_column_rule_style(BorderStyle::NoLine);
    assert!(!column.column_rule_has_nonzero_width());
    let mut other = Column::initial();
    other.copy_column_rule_width_from(&column);
    other.copy_column_rule_style_from(&column);
    assert_eq!(other.clone_column_rule_width(), Au(0));
    other.set_column_rule_style(BorderStyle::Solid);
    assert_eq!(other.clone_column_rule_width(), Au(15));
    other.reset_column_rule_style(&Column::initial());
    other.reset_column_rule_width(&Column::initial());
    assert_eq!(other.column_rule.specified_width(), Au(180));
}

#[test]
fn column_count_and_fill() {
    let mut column = Column::initial();
    assert!(column.has_initial_values());
    column.set_column_count(ColumnCount::Integer(3));
    column.set_column_fill(ColumnFill::Auto);
    assert_eq!(column.clone_column_count(), ColumnCount::Integer(3));
    assert_eq!(column.clone_column_fill(), ColumnFill::Auto);
    assert!(!column.has_initial_values());
    let mut other = Column::initial();
    other.copy_column_count_from(&column);
    other.copy_column_fill_from(&column);
    assert_eq!(other.clone_column_count(), ColumnCount::Integer(3));
    assert_eq!(other.clone_column_fill(), ColumnFill::Auto);
    other.reset_column_count(&Column::initial());
    other.reset_column_fill(&Column::initial());
    assert!(other.has_initial_values());
}
