//! The sub-properties of the layers: for each, the field of a layer that it
//! owns and the count that belongs to it.

use vstd::prelude::*;
use crate::layers::{
    keyword_of_repeat, layer_repeat, repeat_keyword, stored_repeat, Attachment, BackgroundRepeat,
    BackgroundSize, BlendMode, Clip, Composite, Image, Layer, LayerCounts, LayerRepeat,
    LayersModel, MaskMode, Origin, SubProperty,
};
use crate::values::LengthPercentage;

verus! {

/// The sub-property that holds the image of a layer.
pub struct ImageField;

impl SubProperty for ImageField {
    type Value = Image;

    open spec fn read(layer: Layer) -> Image {
        layer.image
    }

    open spec fn write(layer: Layer, value: Image) -> Layer {
        Layer { image: value, ..layer }
    }

    open spec fn count(counts: LayerCounts) -> usize {
        counts.image
    }

    open spec fn with_count(counts: LayerCounts, count: usize) -> LayerCounts {
        LayerCounts { image: count, ..counts }
    }

    proof fn written_value_is_read(layer: Layer, value: Image) {
    }

    proof fn count_is_replaced(counts: LayerCounts, count: usize, low: int, high: int) {
    }

    proof fn effective_layer_cycles(model: LayersModel, index: int) {
    }

    fn get(layer: &Layer) -> (value: Image) {
        layer.image
    }

    fn put(layer: Layer, value: Image) -> (written: Layer) {
        Layer { image: value, ..layer }
    }

    fn get_count(counts: &LayerCounts) -> (count: usize) {
        counts.image
    }

    fn put_count(counts: LayerCounts, count: usize) -> (replaced: LayerCounts) {
        LayerCounts { image: count, ..counts }
    }
}

/// The sub-property that holds the repeat of a layer, which a layer stores in its own form.
pub struct RepeatField;

impl SubProperty for RepeatField {
    type Value = BackgroundRepeat;

    open spec fn read(layer: Layer) -> BackgroundRepeat {
        BackgroundRepeat(keyword_of_repeat(layer.repeat.x), keyword_of_repeat(layer.repeat.y))
    }

    open spec fn write(layer: Layer, value: BackgroundRepeat) -> Layer {
        Layer {
            repeat: LayerRepeat { x: stored_repeat(value.0), y: stored_repeat(value.1) },
            ..layer
        }
    }

    open spec fn count(counts: LayerCounts) -> usize {
        counts.repeat
    }

    open spec fn with_count(counts: LayerCounts, count: usize) -> LayerCounts {
        LayerCounts { repeat: count, ..counts }
    }

    proof fn written_value_is_read(layer: Layer, value: BackgroundRepeat) {
    }

    proof fn count_is_replaced(counts: LayerCounts, count: usize, low: int, high: int) {
    }

    proof fn effective_layer_cycles(model: LayersModel, index: int) {
    }

    fn get(layer: &Layer) -> (value: BackgroundRepeat) {
        BackgroundRepeat(repeat_keyword(layer.repeat.x), repeat_keyword(layer.repeat.y))
    }

    fn put(layer: Layer, value: BackgroundRepeat) -> (written: Layer) {
        Layer {
            repeat: LayerRepeat { x: layer_repeat(value.0), y: layer_repeat(value.1) },
            ..layer
        }
    }

    fn get_count(counts: &LayerCounts) -> (count: usize) {
        counts.repeat
    }

    fn put_count(counts: LayerCounts, count: usize) -> (replaced: LayerCounts) {
        LayerCounts { repeat: count, ..counts }
    }
}

/// The sub-property that holds the horizontal position of a layer.
pub struct PositionXField;

impl SubProperty for PositionXField {
    type Value = LengthPercentage;

    open spec fn read(layer: Layer) -> LengthPercentage {
        layer.position_x
    }

    open spec fn write(layer: Layer, value: LengthPercentage) -> Layer {
        Layer { position_x: value, ..layer }
    }

    open spec fn count(counts: LayerCounts) -> usize {
        counts.position_x
    }

    open spec fn with_count(counts: LayerCounts, count: usize) -> LayerCounts {
        LayerCounts { position_x: count, ..counts }
    }

    proof fn written_value_is_read(layer: Layer, value: LengthPercentage) {
    }

    proof fn count_is_replaced(counts: LayerCounts, count: usize, low: int, high: int) {
    }

    proof fn effective_layer_cycles(model: LayersModel, index: int) {
    }

    fn get(layer: &Layer) -> (value: LengthPercentage) {
        layer.position_x
    }

    fn put(layer: Layer, value: LengthPercentage) -> (written: Layer) {
        Layer { position_x: value, ..layer }
    }

    fn get_count(counts: &LayerCounts) -> (count: usize) {
        counts.position_x
    }

    fn put_count(counts: LayerCounts, count: usize) -> (replaced: LayerCounts) {
        LayerCounts { position_x: count, ..counts }
    }
}

/// The sub-property that holds the vertical position of a layer.
pub struct PositionYField;

impl SubProperty for PositionYField {
    type Value = LengthPercentage;

    open spec fn read(layer: Layer) -> LengthPercentage {
        layer.position_y
    }

    open spec fn write(layer: Layer, value: LengthPercentage) -> Layer {
        Layer { position_y: value, ..layer }
    }

    open spec fn count(counts: LayerCounts) -> usize {
        counts.position_y
    }

    open spec fn with_count(counts: LayerCounts, count: usize) -> LayerCounts {
        LayerCounts { position_y: count, ..counts }
    }

    proof fn written_value_is_read(layer: Layer, value: LengthPercentage) {
    }

    proof fn count_is_replaced(counts: LayerCounts, count: usize, low: int, high: int) {
    }

    proof fn effective_layer_cycles(model: LayersModel, index: int) {
    }

    fn get(layer: &Layer) -> (value: LengthPercentage) {
        layer.position_y
    }

    fn put(layer: Layer, value: LengthPercentage) -> (written: Layer) {
        Layer { position_y: value, ..layer }
    }

    fn get_count(counts: &LayerCounts) -> (count: usize) {
        counts.position_y
    }

    fn put_count(counts: LayerCounts, count: usize) -> (replaced: LayerCounts) {
        LayerCounts { position_y: count, ..counts }
    }
}

/// The sub-property that holds the size of a layer.
pub struct SizeField;

impl SubProperty for SizeField {
    type Value = BackgroundSize;

    open spec fn read(layer: Layer) -> BackgroundSize {
        layer.size
    }

    open spec fn write(layer: Layer, value: BackgroundSize) -> Layer {
        Layer { size: value, ..layer }
    }

    open spec fn count(counts: LayerCounts) -> usize {
        counts.size
    }

    open spec fn with_count(counts: LayerCounts, count: usize) -> LayerCounts {
        LayerCounts { size: count, ..counts }
    }

    proof fn written_value_is_read(layer: Layer, value: BackgroundSize) {
    }

    proof fn count_is_replaced(counts: LayerCounts, count: usize, low: int, high: int) {
    }

    proof fn effective_layer_cycles(model: LayersModel, index: int) {
    }

    fn get(layer: &Layer) -> (value: BackgroundSize) {
        layer.size
    }

    fn put(layer: Layer, value: BackgroundSize) -> (written: Layer) {
        Layer { size: value, ..layer }
    }

    fn get_count(counts: &LayerCounts) -> (count: usize) {
        counts.size
    }

    fn put_count(counts: LayerCounts, count: usize) -> (replaced: LayerCounts) {
        LayerCounts { size: count, ..counts }
    }
}

/// The sub-property that holds the box that a layer is clipped to.
pub struct ClipField;

impl SubProperty for ClipField {
    type Value = Clip;

    open spec fn read(layer: Layer) -> Clip {
        layer.clip
    }

    open spec fn write(layer: Layer, value: Clip) -> Layer {
        Layer { clip: value, ..layer }
    }

    open spec fn count(counts: LayerCounts) -> usize {
        counts.clip
    }

    open spec fn with_count(counts: LayerCounts, count: usize) -> LayerCounts {
        LayerCounts { clip: count, ..counts }
    }

    proof fn written_value_is_read(layer: Layer, value: Clip) {
    }

    proof fn count_is_replaced(counts: LayerCounts, count: usize, low: int, high: int) {
    }

    proof fn effective_layer_cycles(model: LayersModel, index: int) {
    }

    fn get(layer: &Layer) -> (value: Clip) {
        layer.clip
    }

    fn put(layer: Layer, value: Clip) -> (written: Layer) {
        Layer { clip: value, ..layer }
    }

    fn get_count(counts: &LayerCounts) -> (count: usize) {
        counts.clip
    }

    fn put_count(counts: LayerCounts, count: usize) -> (replaced: LayerCounts) {
        LayerCounts { clip: count, ..counts }
    }
}

/// The sub-property that holds the box that a layer is positioned in.
pub struct OriginField;

impl SubProperty for OriginField {
    type Value = Origin;

    open spec fn read(layer: Layer) -> Origin {
        layer.origin
    }

    open spec fn write(layer: Layer, value: Origin) -> Layer {
        Layer { origin: value, ..layer }
    }

    open spec fn count(counts: LayerCounts) -> usize {
        counts.origin
    }

    open spec fn with_count(counts: LayerCounts, count: usize) -> LayerCounts {
        LayerCounts { origin: count, ..counts }
    }

    proof fn written_value_is_read(layer: Layer, value: Origin) {
    }

    proof fn count_is_replaced(counts: LayerCounts, count: usize, low: int, high: int) {
    }

    proof fn effective_layer_cycles(model: LayersModel, index: int) {
    }

    fn get(layer: &Layer) -> (value: Origin) {
        layer.origin
    }

    fn put(layer: Layer, value: Origin) -> (written: Layer) {
        Layer { origin: value, ..layer }
    }

    fn get_count(counts: &LayerCounts) -> (count: usize) {
        counts.origin
    }

    fn put_count(counts: LayerCounts, count: usize) -> (replaced: LayerCounts) {
        LayerCounts { origin: count, ..counts }
    }
}

/// The sub-property that holds the attachment of a background layer.
pub struct AttachmentField;

impl SubProperty for AttachmentField {
    type Value = Attachment;

    open spec fn read(layer: Layer) -> Attachment {
        layer.attachment
    }

    open spec fn write(layer: Layer, value: Attachment) -> Layer {
        Layer { attachment: value, ..layer }
    }

    open spec fn count(counts: LayerCounts) -> usize {
        counts.attachment
    }

    open spec fn with_count(counts: LayerCounts, count: usize) -> LayerCounts {
        LayerCounts { attachment: count, ..counts }
    }

    proof fn written_value_is_read(layer: Layer, value: Attachment) {
    }

    proof fn count_is_replaced(counts: LayerCounts, count: usize, low: int, high: int) {
    }

    proof fn effective_layer_cycles(model: LayersModel, index: int) {
    }

    fn get(layer: &Layer) -> (value: Attachment) {
        layer.attachment
    }

    fn put(layer: Layer, value: Attachment) -> (written: Layer) {
        Layer { attachment: value, ..layer }
    }

    fn get_count(counts: &LayerCounts) -> (count: usize) {
        counts.attachment
    }

    fn put_count(counts: LayerCounts, count: usize) -> (replaced: LayerCounts) {
        LayerCounts { attachment: count, ..counts }
    }
}

/// The sub-property that holds the blend mode of a background layer.
pub struct BlendModeField;

impl SubProperty for BlendModeField {
    type Value = BlendMode;

    open spec fn read(layer: Layer) -> BlendMode {
        layer.blend_mode
    }

    open spec fn write(layer: Layer, value: BlendMode) -> Layer {
        Layer { blend_mode: value, ..layer }
    }

    open spec fn count(counts: LayerCounts) -> usize {
        counts.blend_mode
    }

    open spec fn with_count(counts: LayerCounts, count: usize) -> LayerCounts {
        LayerCounts { blend_mode: count, ..counts }
    }

    proof fn written_value_is_read(layer: Layer, value: BlendMode) {
    }

    proof fn count_is_replaced(counts: LayerCounts, count: usize, low: int, high: int) {
    }

    proof fn effective_layer_cycles(model: LayersModel, index: int) {
    }

    fn get(layer: &Layer) -> (value: BlendMode) {
        layer.blend_mode
    }

    fn put(layer: Layer, value: BlendMode) -> (written: Layer) {
        Layer { blend_mode: value, ..layer }
    }

    fn get_count(counts: &LayerCounts) -> (count: usize) {
        counts.blend_mode
    }

    fn put_count(counts: LayerCounts, count: usize) -> (replaced: LayerCounts) {
        LayerCounts { blend_mode: count, ..counts }
    }
}

/// The sub-property that holds the mode of a mask layer.
pub struct MaskModeField;

impl SubProperty for MaskModeField {
    type Value = MaskMode;

    open spec fn read(layer: Layer) -> MaskMode {
        layer.mask_mode
    }

    open spec fn write(layer: Layer, value: MaskMode) -> Layer {
        Layer { mask_mode: value, ..layer }
    }

    open spec fn count(counts: LayerCounts) -> usize {
        counts.mask_mode
    }

    open spec fn with_count(counts: LayerCounts, count: usize) -> LayerCounts {
        LayerCounts { mask_mode: count, ..counts }
    }

    proof fn written_value_is_read(layer: Layer, value: MaskMode) {
    }

    proof fn count_is_replaced(counts: LayerCounts, count: usize, low: int, high: int) {
    }

    proof fn effective_layer_cycles(model: LayersModel, index: int) {
    }

    fn get(layer: &Layer) -> (value: MaskMode) {
        layer.mask_mode
    }

    fn put(layer: Layer, value: MaskMode) -> (written: Layer) {
        Layer { mask_mode: value, ..layer }
    }

    fn get_count(counts: &LayerCounts) -> (count: usize) {
        counts.mask_mode
    }

    fn put_count(counts: LayerCounts, count: usize) -> (replaced: LayerCounts) {
        LayerCounts { mask_mode: count, ..counts }
    }
}

/// The sub-property that holds the compositing of a mask layer.
pub struct CompositeField;

impl SubProperty for CompositeField {
    type Value = Composite;

    open spec fn read(layer: Layer) -> Composite {
        layer.composite
    }

    open spec fn write(layer: Layer, value: Composite) -> Layer {
        Layer { composite: value, ..layer }
    }

    open spec fn count(counts: LayerCounts) -> usize {
        counts.composite
    }

    open spec fn with_count(counts: LayerCounts, count: usize) -> LayerCounts {
        LayerCounts { composite: count, ..counts }
    }

    proof fn written_value_is_read(layer: Layer, value: Composite) {
    }

    proof fn count_is_replaced(counts: LayerCounts, count: usize, low: int, high: int) {
    }

    proof fn effective_layer_cycles(model: LayersModel, index: int) {
    }

    fn get(layer: &Layer) -> (value: Composite) {
        layer.composite
    }

    fn put(layer: Layer, value: Composite) -> (written: Layer) {
        Layer { composite: value, ..layer }
    }

    fn get_count(counts: &LayerCounts) -> (count: usize) {
        counts.composite
    }

    fn put_count(counts: LayerCounts, count: usize) -> (replaced: LayerCounts) {
        LayerCounts { composite: count, ..counts }
    }
}

} // verus!
