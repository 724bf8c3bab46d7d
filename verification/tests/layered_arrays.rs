use computed_style::{
    layer_repeat, repeat_keyword, Attachment, AttachmentField, BackgroundRepeat,
    BackgroundRepeatKeyword, BackgroundSize, BlendMode, BlendModeField, Clip, ClipField,
    Composite, CompositeField, EmptyList, Image, ImageField, Layer, LayerType,
    LayeredArrayProperty, LengthPercentage, LengthPercentageOrAuto, MaskMode, MaskModeField,
    Origin, OriginField, PositionXField, PositionYField, RepeatField, SizeField,
    StyleImageLayerRepeat,
};

#[test]
fn new_layers_hold_one_initial_layer() {
    let layers = LayeredArrayProperty::new(LayerType::Background);
    assert_eq!(layers.physical_len(), 1);
    assert_eq!(layers.kind(), LayerType::Background);
    assert_eq!(layers.layer(0), Layer::initial(LayerType::Background));
    assert_eq!(layers.count::<ImageField>(), 1);
    assert_eq!(layers.count::<CompositeField>(), 1);
    assert_eq!(layers.counts().max_count(), 1);
}

#[test]
fn initial_layers_differ_in_origin() {
    assert_eq!(Layer::initial(LayerType::Background).origin, Origin::PaddingBox);
    assert_eq!(Layer::initial(LayerType::Mask).origin, Origin::BorderBox);
    assert_eq!(Layer::initial(LayerType::Mask).image, Image::NoImage);
    assert_eq!(Layer::initial(LayerType::Mask).clip, Clip::BorderBox);
}

#[test]
fn set_writes_the_first_layers_and_the_count() {
    let mut layers = LayeredArrayProperty::new(LayerType::Background);
    let images = vec![Image::Url(1), Image::Url(2), Image::Gradient(3)];
    assert_eq!(layers.set::<ImageField>(&images), Ok(()));
    assert_eq!(layers.count::<ImageField>(), 3);
    assert_eq!(layers.physical_len(), 3);
    assert_eq!(layers.declared::<ImageField>(), images);
    assert_eq!(layers.layer(1).image, Image::Url(2));
    // The other sub-properties are untouched: new layers start initial.
    assert_eq!(layers.count::<ClipField>(), 1);
    assert_eq!(layers.layer(2).clip, Clip::BorderBox);
    assert_eq!(layers.layer(2).origin, Origin::PaddingBox);
}

#[test]
fn empty_layer_list_is_rejected() {
    let mut layers = LayeredArrayProperty::new(LayerType::Mask);
    layers.set::<ImageField>(&[Image::Url(1), Image::Url(2)]).unwrap();
    let none: Vec<Image> = Vec::new();
    assert_eq!(layers.set::<ImageField>(&none), Err(EmptyList));
    assert_eq!(layers.count::<ImageField>(), 2);
    assert_eq!(layers.declared::<ImageField>(), vec![Image::Url(1), Image::Url(2)]);
}

#[test]
fn shorter_lists_cycle() {
    let mut layers = LayeredArrayProperty::new(LayerType::Background);
    layers.set::<ImageField>(&[Image::Url(1), Image::Url(2), Image::Url(3)]).unwrap();
    layers.set::<PositionXField>(&[LengthPercentage::Percentage(5000)]).unwrap();
    for index in 0..3 {
        assert_eq!(layers.at::<PositionXField>(index), layers.at::<PositionXField>(0));
        assert_eq!(layers.at::<PositionXField>(index), LengthPercentage::Percentage(5000));
    }
    assert_eq!(layers.at::<ImageField>(4), Image::Url(2));
    layers.fill_arrays();
    assert_eq!(layers.physical_len(), 3);
    assert_eq!(layers.count::<ImageField>(), 3);
    assert_eq!(layers.count::<PositionXField>(), 1);
    for index in 0..3 {
        assert_eq!(layers.layer(index).position_x, LengthPercentage::Percentage(5000));
    }
    assert_eq!(layers.layer(2).image, Image::Url(3));
}

#[test]
fn stale_layers_stay_until_filled() {
    let mut layers = LayeredArrayProperty::new(LayerType::Background);
    layers.set::<ClipField>(&[Clip::Text, Clip::ContentBox, Clip::PaddingBox]).unwrap();
    layers.set::<ClipField>(&[Clip::BorderBox, Clip::Text]).unwrap();
    assert_eq!(layers.count::<ClipField>(), 2);
    assert_eq!(layers.physical_len(), 3);
    assert_eq!(layers.layer(2).clip, Clip::PaddingBox);
    assert_eq!(layers.at::<ClipField>(2), Clip::BorderBox);
    layers.set::<ImageField>(&[Image::Url(1), Image::Url(2), Image::Url(3)]).unwrap();
    layers.fill_arrays();
    assert_eq!(layers.layer(2).clip, Clip::BorderBox);
    assert_eq!(layers.at::<ClipField>(2), Clip::BorderBox);
}

#[test]
fn fill_arrays_cuts_to_the_longest_list() {
    let mut layers = LayeredArrayProperty::new(LayerType::Mask);
    layers.set::<ImageField>(&[Image::Url(1); 5]).unwrap();
    layers.set::<ImageField>(&[Image::Url(7), Image::Url(8)]).unwrap();
    layers.set::<MaskModeField>(&[MaskMode::Alpha, MaskMode::Luminance, MaskMode::Alpha]).unwrap();
    assert_eq!(layers.physical_len(), 5);
    assert_eq!(layers.counts().max_count(), 3);
    layers.fill_arrays();
    assert_eq!(layers.physical_len(), 3);
    assert_eq!(layers.layer(2).image, Image::Url(7));
    assert_eq!(layers.layer(2).mask_mode, MaskMode::Alpha);
    assert_eq!(layers.layer(1).mask_mode, MaskMode::Luminance);
}

#[test]
fn fill_arrays_twice_is_fill_arrays_once() {
    let mut layers = LayeredArrayProperty::new(LayerType::Background);
    layers.set::<ImageField>(&[Image::Url(1), Image::Url(2), Image::Url(3), Image::Url(4)])
        .unwrap();
    layers.set::<AttachmentField>(&[Attachment::Fixed, Attachment::Local]).unwrap();
    layers.set::<BlendModeField>(&[BlendMode::Multiply, BlendMode::Screen, BlendMode::Darken])
        .unwrap();
    layers.fill_arrays();
    let once: Vec<Layer> = (0..layers.physical_len()).map(|i| layers.layer(i)).collect();
    let counts = layers.counts();
    layers.fill_arrays();
    let twice: Vec<Layer> = (0..layers.physical_len()).map(|i| layers.layer(i)).collect();
    assert_eq!(once, twice);
    assert_eq!(counts, layers.counts());
    assert_eq!(once.len(), 4);
    assert_eq!(once[3].attachment, Attachment::Local);
    assert_eq!(once[3].blend_mode, BlendMode::Multiply);
}

#[test]
fn fill_arrays_keeps_what_at_shows() {
    let mut layers = LayeredArrayProperty::new(LayerType::Background);
    layers.set::<ImageField>(&[Image::Url(1), Image::Url(2), Image::Url(3)]).unwrap();
    layers.set::<OriginField>(&[Origin::ContentBox, Origin::BorderBox]).unwrap();
    let before: Vec<Layer> = (0..7).map(|i| layers.effective_layer(i)).collect();
    layers.fill_arrays();
    let after: Vec<Layer> = (0..7).map(|i| layers.effective_layer(i)).collect();
    assert_eq!(before, after);
    assert_eq!(layers.layer(2), layers.effective_layer(2));
    assert_eq!(layers.effective_layer(2).origin, Origin::ContentBox);
    assert_eq!(layers.effective_layer(5).image, Image::Url(3));
}

#[test]
fn ensure_length_grows_and_never_shrinks() {
    let mut layers = LayeredArrayProperty::new(LayerType::Mask);
    layers.ensure_length(4);
    assert_eq!(layers.physical_len(), 4);
    assert_eq!(layers.layer(3), Layer::initial(LayerType::Mask));
    layers.ensure_length(2);
    assert_eq!(layers.physical_len(), 4);
    layers.ensure_length(0);
    assert_eq!(layers.physical_len(), 4);
    assert_eq!(layers.count::<ImageField>(), 1);
}

#[test]
fn copy_from_takes_the_count_of_the_source() {
    let mut source = LayeredArrayProperty::new(LayerType::Background);
    source.set::<SizeField>(&[BackgroundSize::Cover, BackgroundSize::Contain]).unwrap();
    source.set::<ImageField>(&[Image::Url(9), Image::Url(8), Image::Url(7)]).unwrap();
    let mut target = LayeredArrayProperty::new(LayerType::Background);
    target.set::<SizeField>(&[BackgroundSize::Contain; 4]).unwrap();
    target.copy_from::<SizeField>(&source);
    assert_eq!(target.count::<SizeField>(), 2);
    assert_eq!(target.physical_len(), 4);
    assert_eq!(
        target.declared::<SizeField>(),
        vec![BackgroundSize::Cover, BackgroundSize::Contain]
    );
    // Layers beyond the copied count keep what they held.
    assert_eq!(target.layer(2).size, BackgroundSize::Contain);
    assert_eq!(target.layer(3).size, BackgroundSize::Contain);
    // Only the one sub-property was copied.
    assert_eq!(target.count::<ImageField>(), 1);
    assert_eq!(target.layer(0).image, Image::NoImage);
}

#[test]
fn copy_from_grows_the_target() {
    let mut source = LayeredArrayProperty::new(LayerType::Mask);
    source
        .set::<CompositeField>(&[Composite::Subtract, Composite::Intersect, Composite::Exclude])
        .unwrap();
    let mut target = LayeredArrayProperty::new(LayerType::Mask);
    target.copy_from::<CompositeField>(&source);
    assert_eq!(target.physical_len(), 3);
    assert_eq!(target.at::<CompositeField>(2), Composite::Exclude);
    assert_eq!(target.at::<CompositeField>(3), Composite::Subtract);
    let mut reset = LayeredArrayProperty::new(LayerType::Mask);
    reset.reset::<CompositeField>(&source);
    assert_eq!(reset.declared::<CompositeField>(), target.declared::<CompositeField>());
}

#[test]
fn repeat_is_stored_in_the_layer_form_and_read_back() {
    let mut layers = LayeredArrayProperty::new(LayerType::Background);
    let repeats = vec![
        BackgroundRepeat(BackgroundRepeatKeyword::NoRepeat, BackgroundRepeatKeyword::Space),
        BackgroundRepeat(BackgroundRepeatKeyword::Round, BackgroundRepeatKeyword::Repeat),
    ];
    layers.set::<RepeatField>(&repeats).unwrap();
    assert_eq!(layers.layer(0).repeat.x, StyleImageLayerRepeat::NoRepeat);
    assert_eq!(layers.layer(0).repeat.y, StyleImageLayerRepeat::Space);
    assert_eq!(layers.layer(1).repeat.x, StyleImageLayerRepeat::Round);
    assert_eq!(layers.declared::<RepeatField>(), repeats);
    assert_eq!(layers.at::<RepeatField>(3), repeats[1]);
}

#[test]
fn repeat_keywords_map_one_to_one() {
    let keywords = [
        BackgroundRepeatKeyword::Repeat,
        BackgroundRepeatKeyword::Space,
        BackgroundRepeatKeyword::Round,
        BackgroundRepeatKeyword::NoRepeat,
    ];
    assert_eq!(layer_repeat(BackgroundRepeatKeyword::Repeat), StyleImageLayerRepeat::Repeat);
    assert_eq!(layer_repeat(BackgroundRepeatKeyword::Space), StyleImageLayerRepeat::Space);
    assert_eq!(layer_repeat(BackgroundRepeatKeyword::Round), StyleImageLayerRepeat::Round);
    assert_eq!(layer_repeat(BackgroundRepeatKeyword::NoRepeat), StyleImageLayerRepeat::NoRepeat);
    for keyword in keywords {
        assert_eq!(repeat_keyword(layer_repeat(keyword)), keyword);
    }
}

#[test]
fn positions_are_set_per_axis() {
    let mut layers = LayeredArrayProperty::new(LayerType::Background);
    layers
        .set::<PositionXField>(&[LengthPercentage::Length(60), LengthPercentage::Percentage(100)])
        .unwrap();
    layers.set::<PositionYField>(&[LengthPercentage::Length(-120)]).unwrap();
    assert_eq!(layers.at::<PositionXField>(1), LengthPercentage::Percentage(100));
    assert_eq!(layers.at::<PositionYField>(1), LengthPercentage::Length(-120));
    assert_eq!(layers.layer(1).position_y, LengthPercentage::Percentage(0));
    assert_eq!(
        layers.effective_layer(1).size,
        BackgroundSize::ExplicitSize {
            width: LengthPercentageOrAuto::Auto,
            height: LengthPercentageOrAuto::Auto
        }
    );
}

#[test]
fn clone_of_layers_is_independent() {
    let mut layers = LayeredArrayProperty::new(LayerType::Background);
    layers.set::<ImageField>(&[Image::Url(1), Image::Url(2)]).unwrap();
    let copy = layers.clone();
    layers.set::<ImageField>(&[Image::Gradient(5)]).unwrap();
    assert_eq!(copy.count::<ImageField>(), 2);
    assert_eq!(copy.declared::<ImageField>(), vec![Image::Url(1), Image::Url(2)]);
    assert_eq!(layers.at::<ImageField>(1), Image::Gradient(5));
}

#[test]
fn max_count_is_the_largest_count() {
    let mut layers = LayeredArrayProperty::new(LayerType::Background);
    layers.set::<ClipField>(&[Clip::Text; 2]).unwrap();
    layers.set::<BlendModeField>(&[BlendMode::Overlay; 6]).unwrap();
    layers.set::<OriginField>(&[Origin::BorderBox; 4]).unwrap();
    let counts = layers.counts();
    assert_eq!(counts.clip, 2);
    assert_eq!(counts.blend_mode, 6);
    assert_eq!(counts.origin, 4);
    assert_eq!(counts.image, 1);
    assert_eq!(counts.max_count(), 6);
}
