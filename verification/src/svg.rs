//! The svg group: the layers of the `mask` shorthand.

use vstd::prelude::*;
use crate::layers::{LayeredArrayProperty, LayerCounts, LayerType, LayersModel, Layer};

verus! {

/// What the svg group holds.
pub struct SvgModel {
    pub mask: LayersModel,
}

/// The svg group. The sub-properties of its layers are set, copied and
/// read through [`LayeredArrayProperty`].
pub struct Svg {
    pub mask: LayeredArrayProperty,
}

impl View for Svg {
    type V = SvgModel;

    open spec fn view(&self) -> SvgModel {
        SvgModel { mask: self.mask@ }
    }
}

impl Clone for Svg {
    fn clone(&self) -> (copy: Self)
        ensures
            copy@ == self@,
    {
        Svg { mask: self.mask.clone() }
    }
}

impl Svg {
    /// The group's invariant: that of its layers.
    pub open spec fn wf(&self) -> bool {
        self.mask.wf()
    }

    /// The initial group: one layer in its initial state.
    pub open spec fn initial_model() -> SvgModel {
        SvgModel {
            mask: LayersModel {
                layers: seq![Layer::initial_layer(LayerType::Mask)],
                counts: LayerCounts {
                    image: 1,
                    repeat: 1,
                    position_x: 1,
                    position_y: 1,
                    size: 1,
                    clip: 1,
                    origin: 1,
                    attachment: 1,
                    blend_mode: 1,
                    mask_mode: 1,
                    composite: 1,
                },
                kind: LayerType::Mask,
            },
        }
    }

    /// The initial group.
    pub fn initial() -> (group: Self)
        ensures
            group.wf(),
            group@ == Svg::initial_model(),
    {
        Svg { mask: LayeredArrayProperty::new(LayerType::Mask) }
    }

    /// Fills the layers once every sub-property of the shorthand is set:
    /// see [`LayeredArrayProperty::fill_arrays`].
    pub fn fill_arrays(&mut self)
        requires
            old(self).wf(),
        ensures
            final(self).wf(),
            final(self)@ == (SvgModel { mask: old(self)@.mask.filled() }),
    {
        self.mask.fill_arrays();
    }

    /// Whether every property of the group that starts from a fixed value
    /// holds that value.
    pub open spec fn initial_values_hold(model: SvgModel) -> bool {
        let initial = Layer::initial_layer(LayerType::Mask);
        &&& model.mask.counts.image == 1
        &&& model.mask.layers[0].image == initial.image
        &&& model.mask.counts.repeat == 1
        &&& model.mask.layers[0].repeat == initial.repeat
        &&& model.mask.counts.position_x == 1
        &&& model.mask.layers[0].position_x == initial.position_x
        &&& model.mask.counts.position_y == 1
        &&& model.mask.layers[0].position_y == initial.position_y
        &&& model.mask.counts.size == 1
        &&& model.mask.layers[0].size == initial.size
        &&& model.mask.counts.clip == 1
        &&& model.mask.layers[0].clip == initial.clip
        &&& model.mask.counts.origin == 1
        &&& model.mask.layers[0].origin == initial.origin
        &&& model.mask.counts.mask_mode == 1
        &&& model.mask.layers[0].mask_mode == initial.mask_mode
        &&& model.mask.counts.composite == 1
        &&& model.mask.layers[0].composite == initial.composite
    }

    /// Whether every property of the group that starts from a fixed value
    /// holds that value.
    pub fn has_initial_values(&self) -> (holds: bool)
        requires
            self.wf(),
        ensures
            holds == Self::initial_values_hold(self@),
    {
        let counts = self.mask.counts();
        let first = self.mask.layer(0);
        let initial = Layer::initial(LayerType::Mask);
        counts.image == 1
            && first.image == initial.image
            && counts.repeat == 1
            && first.repeat == initial.repeat
            && counts.position_x == 1
            && first.position_x == initial.position_x
            && counts.position_y == 1
            && first.position_y == initial.position_y
            && counts.size == 1
            && first.size == initial.size
            && counts.clip == 1
            && first.clip == initial.clip
            && counts.origin == 1
            && first.origin == initial.origin
            && counts.mask_mode == 1
            && first.mask_mode == initial.mask_mode
            && counts.composite == 1
            && first.composite == initial.composite
    }
}

} // verus!
