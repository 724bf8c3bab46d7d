//! Layered array properties: the sub-properties of `background` and `mask`.
//! The layers stand in one array; each sub-property declares a list of its
//! own length over it and is read by cycling over that list.

use vstd::prelude::*;
use vstd::arithmetic::div_mod::lemma_mod_twice;
use crate::coordinated::EmptyList;
use crate::values::{LengthPercentage, LengthPercentageOrAuto};

verus! {

/// The shorthand that a layer array belongs to.
#[derive(Clone, Copy, Debug, PartialEq, Eq, Structural)]
pub enum LayerType {
    Background,
    Mask,
}

/// An image of a layer, by the number of the resource that describes it.
#[derive(Clone, Copy, Debug, PartialEq, Eq, Structural)]
pub enum Image {
    /// The keyword `none`.
    NoImage,
    Url(u32),
    Gradient(u32),
}

/// How a layer's image is repeated along one axis, as the property states
/// it.
#[derive(Clone, Copy, Debug, PartialEq, Eq, Structural)]
pub enum BackgroundRepeatKeyword {
    Repeat,
    Space,
    Round,
    NoRepeat,
}

/// How a layer's image is repeated along one axis, as a layer stores it.
#[derive(Clone, Copy, Debug, PartialEq, Eq, Structural)]
pub enum StyleImageLayerRepeat {
    NoRepeat,
    Repeat,
    Space,
    Round,
}

/// The repeat of a layer: horizontal, then vertical.
#[derive(Clone, Copy, Debug, PartialEq, Eq, Structural)]
pub struct BackgroundRepeat(pub BackgroundRepeatKeyword, pub BackgroundRepeatKeyword);

/// The repeat of a layer as the layer stores it.
#[derive(Clone, Copy, Debug, PartialEq, Eq, Structural)]
pub struct LayerRepeat {
    pub x: StyleImageLayerRepeat,
    pub y: StyleImageLayerRepeat,
}

/// The stored form of a repeat keyword.
pub open spec fn stored_repeat(repeat: BackgroundRepeatKeyword) -> StyleImageLayerRepeat {
    match repeat {
        BackgroundRepeatKeyword::Repeat => StyleImageLayerRepeat::Repeat,
        BackgroundRepeatKeyword::Space => StyleImageLayerRepeat::Space,
        BackgroundRepeatKeyword::Round => StyleImageLayerRepeat::Round,
        BackgroundRepeatKeyword::NoRepeat => StyleImageLayerRepeat::NoRepeat,
    }
}

/// The keyword of a stored repeat.
pub open spec fn keyword_of_repeat(repeat: StyleImageLayerRepeat) -> BackgroundRepeatKeyword {
    match repeat {
        StyleImageLayerRepeat::Repeat => BackgroundRepeatKeyword::Repeat,
        StyleImageLayerRepeat::Space => BackgroundRepeatKeyword::Space,
        StyleImageLayerRepeat::Round => BackgroundRepeatKeyword::Round,
        StyleImageLayerRepeat::NoRepeat => BackgroundRepeatKeyword::NoRepeat,
    }
}

/// The stored form of a repeat keyword.
pub fn layer_repeat(repeat: BackgroundRepeatKeyword) -> (stored: StyleImageLayerRepeat)
    ensures
        stored == stored_repeat(repeat),
        keyword_of_repeat(stored) == repeat,
{
    match repeat {
        BackgroundRepeatKeyword::Repeat => StyleImageLayerRepeat::Repeat,
        BackgroundRepeatKeyword::Space => StyleImageLayerRepeat::Space,
        BackgroundRepeatKeyword::Round => StyleImageLayerRepeat::Round,
        BackgroundRepeatKeyword::NoRepeat => StyleImageLayerRepeat::NoRepeat,
    }
}

/// The keyword of a stored repeat.
pub fn repeat_keyword(repeat: StyleImageLayerRepeat) -> (keyword: BackgroundRepeatKeyword)
    ensures
        keyword == keyword_of_repeat(repeat),
        stored_repeat(keyword) == repeat,
{
    match repeat {
        StyleImageLayerRepeat::Repeat => BackgroundRepeatKeyword::Repeat,
        StyleImageLayerRepeat::Space => BackgroundRepeatKeyword::Space,
        StyleImageLayerRepeat::Round => BackgroundRepeatKeyword::Round,
        StyleImageLayerRepeat::NoRepeat => BackgroundRepeatKeyword::NoRepeat,
    }
}

/// The size of a layer's image.
#[derive(Clone, Copy, Debug, PartialEq, Eq, Structural)]
pub enum BackgroundSize {
    ExplicitSize { width: LengthPercentageOrAuto, height: LengthPercentageOrAuto },
    Cover,
    Contain,
}

/// The box that a layer is clipped to.
#[derive(Clone, Copy, Debug, PartialEq, Eq, Structural)]
pub enum Clip {
    BorderBox,
    PaddingBox,
    ContentBox,
    Text,
}

/// The box that a layer is positioned in.
#[derive(Clone, Copy, Debug, PartialEq, Eq, Structural)]
pub enum Origin {
    BorderBox,
    PaddingBox,
    ContentBox,
}

/// Whether a background layer scrolls.
#[derive(Clone, Copy, Debug, PartialEq, Eq, Structural)]
pub enum Attachment {
    Scroll,
    Fixed,
    Local,
}

/// How a background layer blends with what is below it.
#[derive(Clone, Copy, Debug, PartialEq, Eq, Structural)]
pub enum BlendMode {
    Normal,
    Multiply,
    Screen,
    Overlay,
    Darken,
    Lighten,
}

/// What of a mask layer's image is the mask.
#[derive(Clone, Copy, Debug, PartialEq, Eq, Structural)]
pub enum MaskMode {
    MatchSource,
    Alpha,
    Luminance,
}

/// How a mask layer is combined with the layers below it.
#[derive(Clone, Copy, Debug, PartialEq, Eq, Structural)]
pub enum Composite {
    Add,
    Subtract,
    Intersect,
    Exclude,
}

/// One layer: a field for each sub-property.
#[derive(Clone, Copy, Debug, PartialEq, Eq, Structural)]
pub struct Layer {
    pub image: Image,
    pub repeat: LayerRepeat,
    pub position_x: LengthPercentage,
    pub position_y: LengthPercentage,
    pub size: BackgroundSize,
    pub clip: Clip,
    pub origin: Origin,
    pub attachment: Attachment,
    pub blend_mode: BlendMode,
    pub mask_mode: MaskMode,
    pub composite: Composite,
}

impl Layer {
    /// A layer in its initial state. The two shorthands differ in the box
    /// that a layer is positioned in.
    pub open spec fn initial_layer(kind: LayerType) -> Layer {
        Layer {
            image: Image::NoImage,
            repeat: LayerRepeat {
                x: StyleImageLayerRepeat::Repeat,
                y: StyleImageLayerRepeat::Repeat,
            },
            position_x: LengthPercentage::Percentage(0),
            position_y: LengthPercentage::Percentage(0),
            size: BackgroundSize::ExplicitSize {
                width: LengthPercentageOrAuto::Auto,
                height: LengthPercentageOrAuto::Auto,
            },
            clip: Clip::BorderBox,
            origin: match kind {
                LayerType::Background => Origin::PaddingBox,
                LayerType::Mask => Origin::BorderBox,
            },
            attachment: Attachment::Scroll,
            blend_mode: BlendMode::Normal,
            mask_mode: MaskMode::MatchSource,
            composite: Composite::Add,
        }
    }

    /// A layer in its initial state.
    pub fn initial(kind: LayerType) -> (layer: Layer)
        ensures
            layer == Layer::initial_layer(kind),
    {
        Layer {
            image: Image::NoImage,
            repeat: LayerRepeat {
                x: StyleImageLayerRepeat::Repeat,
                y: StyleImageLayerRepeat::Repeat,
            },
            position_x: LengthPercentage::Percentage(0),
            position_y: LengthPercentage::Percentage(0),
            size: BackgroundSize::ExplicitSize {
                width: LengthPercentageOrAuto::Auto,
                height: LengthPercentageOrAuto::Auto,
            },
            clip: Clip::BorderBox,
            origin: match kind {
                LayerType::Background => Origin::PaddingBox,
                LayerType::Mask => Origin::BorderBox,
            },
            attachment: Attachment::Scroll,
            blend_mode: BlendMode::Normal,
            mask_mode: MaskMode::MatchSource,
            composite: Composite::Add,
        }
    }
}

/// How many values each sub-property declares.
#[derive(Clone, Copy, Debug, PartialEq, Eq, Structural)]
pub struct LayerCounts {
    pub image: usize,
    pub repeat: usize,
    pub position_x: usize,
    pub position_y: usize,
    pub size: usize,
    pub clip: usize,
    pub origin: usize,
    pub attachment: usize,
    pub blend_mode: usize,
    pub mask_mode: usize,
    pub composite: usize,
}

/// The larger of two counts.
pub open spec fn larger(a: int, b: int) -> int {
    if a >= b {
        a
    } else {
        b
    }
}

impl LayerCounts {
    /// Every count lies between `low` and `high`.
    pub open spec fn within(self, low: int, high: int) -> bool {
        &&& low <= self.image <= high
        &&& low <= self.repeat <= high
        &&& low <= self.position_x <= high
        &&& low <= self.position_y <= high
        &&& low <= self.size <= high
        &&& low <= self.clip <= high
        &&& low <= self.origin <= high
        &&& low <= self.attachment <= high
        &&& low <= self.blend_mode <= high
        &&& low <= self.mask_mode <= high
        &&& low <= self.composite <= high
    }

    /// The largest of the counts, and at least one.
    pub open spec fn largest(self) -> int {
        larger(
            larger(
                larger(larger(larger(1, self.repeat as int), self.clip as int), self.origin as int),
                larger(larger(self.position_x as int, self.position_y as int), self.image as int),
            ),
            larger(
                larger(self.size as int, self.attachment as int),
                larger(
                    larger(self.blend_mode as int, self.mask_mode as int),
                    self.composite as int,
                ),
            ),
        )
    }

    /// The largest of the counts, and at least one.
    pub fn max_count(&self) -> (max: usize)
        ensures
            max == self.largest(),
            max >= 1,
            self.within(0, max as int),
    {
        let mut max: usize = 1;
        if self.repeat > max {
            max = self.repeat;
        }
        if self.clip > max {
            max = self.clip;
        }
        if self.origin > max {
            max = self.origin;
        }
        if self.position_x > max {
            max = self.position_x;
        }
        if self.position_y > max {
            max = self.position_y;
        }
        if self.image > max {
            max = self.image;
        }
        if self.size > max {
            max = self.size;
        }
        if self.attachment > max {
            max = self.attachment;
        }
        if self.blend_mode > max {
            max = self.blend_mode;
        }
        if self.mask_mode > max {
            max = self.mask_mode;
        }
        if self.composite > max {
            max = self.composite;
        }
        max
    }
}

/// What a layer array holds.
pub struct LayersModel {
    pub layers: Seq<Layer>,
    pub counts: LayerCounts,
    pub kind: LayerType,
}

impl LayersModel {
    /// Every sub-property declares at least one value, and every declared
    /// value has a layer.
    pub open spec fn wf(self) -> bool {
        self.counts.within(1, self.layers.len() as int)
    }

    /// The layers grown to at least `len`, new layers in their initial
    /// state. Nothing is ever taken away.
    pub open spec fn grown(self, len: nat) -> Self {
        LayersModel {
            layers: Seq::new(
                if len > self.layers.len() { len } else { self.layers.len() },
                |i: int|
                    if i < self.layers.len() {
                        self.layers[i]
                    } else {
                        Layer::initial_layer(self.kind)
                    },
            ),
            counts: self.counts,
            kind: self.kind,
        }
    }

    /// Layer `index` as the sub-properties show it, each cycling over its
    /// own declared values.
    pub open spec fn effective_layer(self, index: int) -> Layer {
        Layer {
            image: self.layers[index % (self.counts.image as int)].image,
            repeat: self.layers[index % (self.counts.repeat as int)].repeat,
            position_x: self.layers[index % (self.counts.position_x as int)].position_x,
            position_y: self.layers[index % (self.counts.position_y as int)].position_y,
            size: self.layers[index % (self.counts.size as int)].size,
            clip: self.layers[index % (self.counts.clip as int)].clip,
            origin: self.layers[index % (self.counts.origin as int)].origin,
            attachment: self.layers[index % (self.counts.attachment as int)].attachment,
            blend_mode: self.layers[index % (self.counts.blend_mode as int)].blend_mode,
            mask_mode: self.layers[index % (self.counts.mask_mode as int)].mask_mode,
            composite: self.layers[index % (self.counts.composite as int)].composite,
        }
    }

    /// The array after it was filled: as many layers as the longest list
    /// declares, every sub-property repeated over all of them.
    pub open spec fn filled(self) -> Self {
        LayersModel {
            layers: Seq::new(self.counts.largest() as nat, |i: int| self.effective_layer(i)),
            counts: self.counts,
            kind: self.kind,
        }
    }
}

impl LayersModel {
    /// The values that a sub-property declares, in order.
    pub open spec fn declared<P: SubProperty>(self) -> Seq<P::Value> {
        Seq::new(P::count(self.counts) as nat, |i: int| P::read(self.layers[i]))
    }

    /// The value that a sub-property shows at `index`: shorter lists repeat
    /// from their start.
    pub open spec fn at<P: SubProperty>(self, index: int) -> P::Value {
        P::read(self.layers[index % (P::count(self.counts) as int)])
    }

    /// The array after a sub-property declared `values`: they are written to
    /// the first layers and counted; the sub-property's field in later
    /// layers, and every other field, keeps what it held.
    pub open spec fn declare<P: SubProperty>(self, values: Seq<P::Value>) -> Self {
        LayersModel {
            layers: Seq::new(
                self.grown(values.len()).layers.len(),
                |i: int|
                    if i < values.len() {
                        P::write(self.grown(values.len()).layers[i], values[i])
                    } else {
                        self.grown(values.len()).layers[i]
                    },
            ),
            counts: P::with_count(self.counts, values.len() as usize),
            kind: self.kind,
        }
    }
}

/// A sub-property of the layers: one field of a layer and the count that
/// belongs to it.
pub trait SubProperty {
    /// The sub-property's single value.
    type Value: Copy;

    /// The value that a layer holds for the sub-property.
    spec fn read(layer: Layer) -> Self::Value;

    /// The layer with the sub-property's value replaced.
    spec fn write(layer: Layer, value: Self::Value) -> Layer;

    /// How many values the sub-property declares.
    spec fn count(counts: LayerCounts) -> usize;

    /// The counts with the sub-property's count replaced.
    spec fn with_count(counts: LayerCounts, count: usize) -> LayerCounts;

    /// A layer holds what was written to it, and writing back what a layer
    /// holds changes nothing.
    proof fn written_value_is_read(layer: Layer, value: Self::Value)
        ensures
            Self::read(Self::write(layer, value)) == value,
            Self::write(layer, Self::read(layer)) == layer,
    ;

    /// Replacing the count touches no other count.
    proof fn count_is_replaced(counts: LayerCounts, count: usize, low: int, high: int)
        ensures
            Self::count(Self::with_count(counts, count)) == count,
            counts.within(low, high) ==> low <= Self::count(counts) <= high,
            counts.within(low, high) && low <= count <= high ==> Self::with_count(
                counts,
                count,
            ).within(low, high),
    ;

    /// Cycling a sub-property over its list reads the layer at the index
    /// taken modulo the count.
    proof fn effective_layer_cycles(model: LayersModel, index: int)
        ensures
            Self::read(model.effective_layer(index)) == Self::read(
                model.layers[index % (Self::count(model.counts) as int)],
            ),
    ;

    fn get(layer: &Layer) -> (value: Self::Value)
        ensures
            value == Self::read(*layer),
    ;

    fn put(layer: Layer, value: Self::Value) -> (written: Layer)
        ensures
            written == Self::write(layer, value),
    ;

    fn get_count(counts: &LayerCounts) -> (count: usize)
        ensures
            count == Self::count(*counts),
    ;

    fn put_count(counts: LayerCounts, count: usize) -> (replaced: LayerCounts)
        ensures
            replaced == Self::with_count(counts, count),
    ;
}

/// The layers of one shorthand.
pub struct LayeredArrayProperty {
    layers: Vec<Layer>,
    counts: LayerCounts,
    kind: LayerType,
}

impl View for LayeredArrayProperty {
    type V = LayersModel;

    closed spec fn view(&self) -> LayersModel {
        LayersModel { layers: self.layers@, counts: self.counts, kind: self.kind }
    }
}

impl Clone for LayeredArrayProperty {
    fn clone(&self) -> (copy: Self)
        ensures
            copy@ == self@,
    {
        let mut layers: Vec<Layer> = Vec::new();
        let mut i: usize = 0;
        while i < self.layers.len()
            invariant
                i <= self.layers@.len(),
                layers@.len() == i,
                forall|j: int| 0 <= j < i ==> layers@[j] == self.layers@[j],
            decreases self.layers@.len() - i,
        {
            layers.push(self.layers[i]);
            i += 1;
        }
        assert(layers@ =~= self.layers@);
        LayeredArrayProperty { layers, counts: self.counts, kind: self.kind }
    }
}

impl LayeredArrayProperty {
    /// The array's invariant: see [`LayersModel::wf`].
    pub open spec fn wf(&self) -> bool {
        self@.wf()
    }

    /// The layers of a shorthand that was never set: one layer in its
    /// initial state, which every sub-property declares.
    pub fn new(kind: LayerType) -> (layers: Self)
        ensures
            layers.wf(),
            layers@ == (LayersModel {
                layers: seq![Layer::initial_layer(kind)],
                counts: LayerCounts {
                    image: 1,
                    repeat: 1,
                    position_x: 1,
                    position_y: 1,
                    size: 1,
                    clip: 1,
                    origin: 1,
                    attachment: 1,
                    blend_mode: 1,
                    mask_mode: 1,
                    composite: 1,
                },
                kind,
            }),
    {
        let mut layers: Vec<Layer> = Vec::new();
        layers.push(Layer::initial(kind));
        assert(layers@ =~= seq![Layer::initial_layer(kind)]);
        LayeredArrayProperty {
            layers,
            counts: LayerCounts {
                image: 1,
                repeat: 1,
                position_x: 1,
                position_y: 1,
                size: 1,
                clip: 1,
                origin: 1,
                attachment: 1,
                blend_mode: 1,
                mask_mode: 1,
                composite: 1,
            },
            kind,
        }
    }

    /// How many layers the array holds, declared or not.
    pub fn physical_len(&self) -> (len: usize)
        ensures
            len == self@.layers.len(),
    {
        self.layers.len()
    }

    /// The counts of all sub-properties.
    pub fn counts(&self) -> (counts: LayerCounts)
        ensures
            counts == self@.counts,
    {
        self.counts
    }

    /// The shorthand that the layers belong to.
    pub fn kind(&self) -> (kind: LayerType)
        ensures
            kind == self@.kind,
    {
        self.kind
    }

    /// The layer stored at `index`.
    pub fn layer(&self, index: usize) -> (layer: Layer)
        requires
            index < self@.layers.len(),
        ensures
            layer == self@.layers[index as int],
    {
        self.layers[index]
    }

    /// Grows the array to at least `len` layers; new layers are in their
    /// initial state. Never shrinks.
    pub fn ensure_length(&mut self, len: usize)
        ensures
            final(self)@ == old(self)@.grown(len as nat),
            old(self).wf() ==> final(self).wf(),
    {
        while self.layers.len() < len
            invariant
                self.counts == old(self).counts,
                self.kind == old(self).kind,
                old(self).layers@.len() <= self.layers@.len(),
                self.layers@.len() <= len || self.layers@.len() == old(self).layers@.len(),
                forall|i: int|
                    0 <= i < old(self).layers@.len() ==> self.layers@[i] == old(self).layers@[i],
                forall|i: int|
                    old(self).layers@.len() <= i < self.layers@.len() ==> self.layers@[i]
                        == Layer::initial_layer(self.kind),
            decreases len - self.layers.len(),
        {
            self.layers.push(Layer::initial(self.kind));
        }
        assert(self@.layers =~= old(self)@.grown(len as nat).layers);
    }

    /// How many values the sub-property `P` declares.
    pub fn count<P: SubProperty>(&self) -> (count: usize)
        ensures
            count == P::count(self@.counts),
    {
        P::get_count(&self.counts)
    }

    /// Declares `values` as the list of the sub-property `P`: they are
    /// written to the first layers, which are added where missing, and
    /// counted. Layers beyond them keep what they held for `P` until the
    /// array is filled. An empty `values` is rejected and leaves the array
    /// as it was.
    pub fn set<P: SubProperty>(&mut self, values: &[P::Value]) -> (outcome: Result<(), EmptyList>)
        requires
            old(self).wf(),
        ensures
            final(self).wf(),
            values@.len() == 0 ==> outcome == Err::<(), EmptyList>(EmptyList) && final(self)@
                == old(self)@,
            values@.len() > 0 ==> outcome == Ok::<(), EmptyList>(()) && final(self)@ == old(
                self,
            )@.declare::<P>(values@),
    {
        let len = values.len();
        if len == 0 {
            return Err(EmptyList);
        }
        self.ensure_length(len);
        let ghost grown = self@;
        let mut i: usize = 0;
        while i < len
            invariant
                i <= len,
                len == values@.len(),
                len <= self.layers@.len(),
                self.layers@.len() == grown.layers.len(),
                self.counts == old(self).counts,
                self.kind == old(self).kind,
                forall|j: int|
                    0 <= j < i ==> self.layers@[j] == P::write(grown.layers[j], values@[j]),
                forall|j: int| i <= j < self.layers@.len() ==> self.layers@[j] == grown.layers[j],
            decreases len - i,
        {
            let written = P::put(self.layers[i], values[i]);
            self.layers[i] = written;
            i += 1;
        }
        self.counts = P::put_count(self.counts, len);
        proof {
            P::count_is_replaced(old(self).counts, len, 1, self.layers@.len() as int);
            assert(self@.layers =~= old(self)@.declare::<P>(values@).layers);
        }
        Ok(())
    }

    /// Takes over what `other` declares for the sub-property `P`: exactly
    /// that many values, and their count. Layers beyond them are not
    /// touched.
    pub fn copy_from<P: SubProperty>(&mut self, other: &Self)
        requires
            old(self).wf(),
            other.wf(),
        ensures
            final(self).wf(),
            final(self)@ == old(self)@.declare::<P>(other@.declared::<P>()),
    {
        let len = P::get_count(&other.counts);
        proof {
            P::count_is_replaced(other.counts, len, 1, other.layers@.len() as int);
        }
        self.ensure_length(len);
        let ghost grown = self@;
        let ghost values = other@.declared::<P>();
        let mut i: usize = 0;
        while i < len
            invariant
                i <= len,
                len == values.len(),
                len <= other.layers@.len(),
                values == other@.declared::<P>(),
                len <= self.layers@.len(),
                self.layers@.len() == grown.layers.len(),
                self.counts == old(self).counts,
                self.kind == old(self).kind,
                forall|j: int|
                    0 <= j < i ==> self.layers@[j] == P::write(grown.layers[j], values[j]),
                forall|j: int| i <= j < self.layers@.len() ==> self.layers@[j] == grown.layers[j],
            decreases len - i,
        {
            let value = P::get(&other.layers[i]);
            let written = P::put(self.layers[i], value);
            self.layers[i] = written;
            i += 1;
        }
        self.counts = P::put_count(self.counts, len);
        proof {
            P::count_is_replaced(old(self).counts, len, 1, self.layers@.len() as int);
            assert(self@.layers =~= old(self)@.declare::<P>(values).layers);
        }
    }

    /// Resets the sub-property `P` to what `other` declares: the same as
    /// [`copy_from`](Self::copy_from).
    pub fn reset<P: SubProperty>(&mut self, other: &Self)
        requires
            old(self).wf(),
            other.wf(),
        ensures
            final(self).wf(),
            final(self)@ == old(self)@.declare::<P>(other@.declared::<P>()),
    {
        self.copy_from::<P>(other)
    }

    /// The value that the sub-property `P` shows at `index`, cycling over
    /// its declared values.
    pub fn at<P: SubProperty>(&self, index: usize) -> (value: P::Value)
        requires
            self.wf(),
        ensures
            value == self@.at::<P>(index as int),
    {
        let count = P::get_count(&self.counts);
        proof {
            P::count_is_replaced(self.counts, count, 1, self.layers@.len() as int);
        }
        P::get(&self.layers[index % count])
    }

    /// The values that the sub-property `P` declares, in order.
    pub fn declared<P: SubProperty>(&self) -> (values: Vec<P::Value>)
        requires
            self.wf(),
        ensures
            values@ == self@.declared::<P>(),
    {
        let count = P::get_count(&self.counts);
        proof {
            P::count_is_replaced(self.counts, count, 1, self.layers@.len() as int);
        }
        let mut values: Vec<P::Value> = Vec::new();
        let mut i: usize = 0;
        while i < count
            invariant
                i <= count,
                count == P::count(self.counts),
                count <= self.layers@.len(),
                values@.len() == i,
                forall|j: int| 0 <= j < i ==> values@[j] == P::read(self.layers@[j]),
            decreases count - i,
        {
            values.push(P::get(&self.layers[i]));
            i += 1;
        }
        assert(values@ =~= self@.declared::<P>());
        values
    }

    /// Layer `index` as the sub-properties show it, each cycling over its
    /// own declared values.
    pub fn effective_layer(&self, index: usize) -> (layer: Layer)
        requires
            self.wf(),
        ensures
            layer == self@.effective_layer(index as int),
    {
        Layer {
            image: self.layers[index % self.counts.image].image,
            repeat: self.layers[index % self.counts.repeat].repeat,
            position_x: self.layers[index % self.counts.position_x].position_x,
            position_y: self.layers[index % self.counts.position_y].position_y,
            size: self.layers[index % self.counts.size].size,
            clip: self.layers[index % self.counts.clip].clip,
            origin: self.layers[index % self.counts.origin].origin,
            attachment: self.layers[index % self.counts.attachment].attachment,
            blend_mode: self.layers[index % self.counts.blend_mode].blend_mode,
            mask_mode: self.layers[index % self.counts.mask_mode].mask_mode,
            composite: self.layers[index % self.counts.composite].composite,
        }
    }

    /// Fills the array once every sub-property is set: the array gets as
    /// many layers as the longest list declares, and every sub-property is
    /// repeated over all of them. The counts stay, so what each sub-property
    /// shows at any index stays too.
    pub fn fill_arrays(&mut self)
        requires
            old(self).wf(),
        ensures
            final(self).wf(),
            final(self)@ == old(self)@.filled(),
    {
        let max_len = self.counts.max_count();
        let mut filled: Vec<Layer> = Vec::new();
        let mut i: usize = 0;
        while i < max_len
            invariant
                i <= max_len,
                self.wf(),
                *self == *old(self),
                filled@.len() == i,
                forall|j: int| 0 <= j < i ==> filled@[j] == self@.effective_layer(j),
            decreases max_len - i,
        {
            filled.push(self.effective_layer(i));
            i += 1;
        }
        self.layers = filled;
        assert(self@.layers =~= old(self)@.filled().layers);
    }
}

/// A filled array keeps its invariant and has exactly as many layers as the
/// longest list declares.
pub proof fn filled_array_is_normal(model: LayersModel)
    requires
        model.wf(),
    ensures
        model.filled().wf(),
        model.filled().layers.len() == model.counts.largest(),
        model.filled().counts == model.counts,
{
}

/// Filling does not change what any sub-property shows at any index.
pub proof fn filling_keeps_what_is_shown(model: LayersModel, index: int)
    requires
        model.wf(),
        0 <= index,
    ensures
        model.filled().effective_layer(index) == model.effective_layer(index),
{
    let filled = model.filled();
    lemma_mod_twice(index, model.counts.image as int);
    lemma_mod_twice(index, model.counts.repeat as int);
    lemma_mod_twice(index, model.counts.position_x as int);
    lemma_mod_twice(index, model.counts.position_y as int);
    lemma_mod_twice(index, model.counts.size as int);
    lemma_mod_twice(index, model.counts.clip as int);
    lemma_mod_twice(index, model.counts.origin as int);
    lemma_mod_twice(index, model.counts.attachment as int);
    lemma_mod_twice(index, model.counts.blend_mode as int);
    lemma_mod_twice(index, model.counts.mask_mode as int);
    lemma_mod_twice(index, model.counts.composite as int);
    lemma_cycled_index_in_range(index, model.counts.image as int);
    lemma_cycled_index_in_range(index, model.counts.repeat as int);
    lemma_cycled_index_in_range(index, model.counts.position_x as int);
    lemma_cycled_index_in_range(index, model.counts.position_y as int);
    lemma_cycled_index_in_range(index, model.counts.size as int);
    lemma_cycled_index_in_range(index, model.counts.clip as int);
    lemma_cycled_index_in_range(index, model.counts.origin as int);
    lemma_cycled_index_in_range(index, model.counts.attachment as int);
    lemma_cycled_index_in_range(index, model.counts.blend_mode as int);
    lemma_cycled_index_in_range(index, model.counts.mask_mode as int);
    lemma_cycled_index_in_range(index, model.counts.composite as int);
}

/// Filling a filled array changes nothing.
pub proof fn filling_twice_is_filling_once(model: LayersModel)
    requires
        model.wf(),
    ensures
        model.filled().filled() == model.filled(),
{
    let once = model.filled();
    let twice = once.filled();
    assert forall|i: int| 0 <= i < once.layers.len() implies twice.layers[i] == once.layers[i] by {
        filling_keeps_what_is_shown(model, i);
    }
    assert(twice.layers =~= once.layers);
}

/// Growing takes nothing away: the layers that were there keep what they
/// held, and the array is never shorter than it was or than was asked for.
pub proof fn growing_never_shrinks(model: LayersModel, len: nat, index: int)
    requires
        0 <= index < model.layers.len(),
    ensures
        model.grown(len).layers.len() >= model.layers.len(),
        model.grown(len).layers.len() >= len,
        model.grown(len).layers[index] == model.layers[index],
        model.grown(len).counts == model.counts,
{
}

/// What a sub-property declared is what is read for it: the declared values
/// are the values given, and each index shows the value at the index taken
/// modulo their number.
pub proof fn declared_values_are_read_back<P: SubProperty>(
    model: LayersModel,
    values: Seq<P::Value>,
    index: int,
)
    requires
        0 < values.len() <= usize::MAX,
        0 <= index,
    ensures
        model.declare::<P>(values).declared::<P>() == values,
        model.declare::<P>(values).at::<P>(index) == values[index % (values.len() as int)],
{
    let declared = model.declare::<P>(values);
    P::count_is_replaced(model.counts, values.len() as usize, 0, 0);
    assert forall|i: int| 0 <= i < values.len() implies P::read(declared.layers[i])
        == values[i] by {
        P::written_value_is_read(model.grown(values.len()).layers[i], values[i]);
    }
    assert(declared.declared::<P>() =~= values);
}

/// An array that took over what another declares for a sub-property shows
/// for it what the other shows, at every index, whatever either held before.
pub proof fn copied_sub_property_shows_the_same<P: SubProperty>(
    model: LayersModel,
    source: LayersModel,
    index: int,
)
    requires
        source.wf(),
        0 <= index,
    ensures
        P::count(model.declare::<P>(source.declared::<P>()).counts) == P::count(source.counts),
        model.declare::<P>(source.declared::<P>()).declared::<P>() == source.declared::<P>(),
        model.declare::<P>(source.declared::<P>()).at::<P>(index) == source.at::<P>(index),
{
    P::count_is_replaced(source.counts, 0, 1, source.layers.len() as int);
    P::count_is_replaced(model.counts, P::count(source.counts), 0, 0);
    declared_values_are_read_back::<P>(model, source.declared::<P>(), index);
}

/// A sub-property that declares one value shows it at every index, however
/// many values the others declare.
pub proof fn single_value_shows_everywhere<P: SubProperty>(model: LayersModel, index: int)
    requires
        P::count(model.counts) == 1,
    ensures
        model.at::<P>(index) == model.at::<P>(0),
        model.at::<P>(index) == P::read(model.layers[0]),
{
    assert(index % 1 == 0);
}

/// What a sub-property shows at an index is what the layer shown there
/// holds for it.
pub proof fn shown_value_is_in_effective_layer<P: SubProperty>(model: LayersModel, index: int)
    ensures
        model.at::<P>(index) == P::read(model.effective_layer(index)),
{
    P::effective_layer_cycles(model, index);
}

/// An index taken modulo a count lies below the count.
proof fn lemma_cycled_index_in_range(index: int, count: int)
    requires
        0 <= index,
        1 <= count,
    ensures
        0 <= index % count < count,
{
}

} // verus!
