//! The background group: the layers of the `background` shorthand.

use vstd::prelude::*;
use crate::layers::{LayeredArrayProperty, LayerCounts, LayerType, LayersModel, Layer};

verus! {

/// What the background group holds.
pub struct BackgroundModel {
    pub image: LayersModel,
}

/// The background group. The sub-properties of its layers are set, copied and
/// read through [`LayeredArrayProperty`].
pub struct Background {
    pub image: LayeredArrayProperty,
}

impl View for Background {
    type V = BackgroundModel;

    open spec fn view(&self) -> BackgroundModel {
        BackgroundModel { image: self.image@ }
    }
}

impl Clone for Background {
    fn clone(&self) -> (copy: Self)
        ensures
            copy@ == self@,
    {
        Background { image: self.image.clone() }
    }
}

impl Background {
    /// The group's invariant: that of its layers.
    pub open spec fn wf(&self) -> bool {
        self.image.wf()
    }

    /// The initial group: one layer in its initial state.
    pub open spec fn initial_model() -> BackgroundModel {
        BackgroundModel {
            image: LayersModel {
                layers: seq![Layer::initial_layer(LayerType::Background)],
                counts: LayerCounts {
                    image: 1,
                    repeat: 1,
                    position_x: 1,
                    position_y: 1,
                    size: 1,
                    clip: 1,
                    origin: 1,
                    attachment: 1,
                    blend_mode: 1,
                    mask_mode: 1,
                    composite: 1,
                },
                kind: LayerType::Background,
            },
        }
    }

    /// The initial group.
    pub fn initial() -> (group: Self)
        ensures
            group.wf(),
            group@ == Background::initial_model(),
    {
        Background { image: LayeredArrayProperty::new(LayerType::Background) }
    }

    /// Fills the layers once every sub-property of the shorthand is set:
    /// see [`LayeredArrayProperty::fill_arrays`].
    pub fn fill_arrays(&mut self)
        requires
            old(self).wf(),
        ensures
            final(self).wf(),
            final(self)@ == (BackgroundModel { image: old(self)@.image.filled() }),
    {
        self.image.fill_arrays();
    }

    /// Whether every property of the group that starts from a fixed value
    /// holds that value.
    pub open spec fn initial_values_hold(model: BackgroundModel) -> bool {
        let initial = Layer::initial_layer(LayerType::Background);
        &&& model.image.counts.image == 1
        &&& model.image.layers[0].image == initial.image
        &&& model.image.counts.repeat == 1
        &&& model.image.layers[0].repeat == initial.repeat
        &&& model.image.counts.position_x == 1
        &&& model.image.layers[0].position_x == initial.position_x
        &&& model.image.counts.position_y == 1
        &&& model.image.layers[0].position_y == initial.position_y
        &&& model.image.counts.size == 1
        &&& model.image.layers[0].size == initial.size
        &&& model.image.counts.clip == 1
        &&& model.image.layers[0].clip == initial.clip
        &&& model.image.counts.origin == 1
        &&& model.image.layers[0].origin == initial.origin
        &&& model.image.counts.attachment == 1
        &&& model.image.layers[0].attachment == initial.attachment
        &&& model.image.counts.blend_mode == 1
        &&& model.image.layers[0].blend_mode == initial.blend_mode
    }

    /// Whether every property of the group that starts from a fixed value
    /// holds that value.
    pub fn has_initial_values(&self) -> (holds: bool)
        requires
            self.wf(),
        ensures
            holds == Self::initial_values_hold(self@),
    {
        let counts = self.image.counts();
        let first = self.image.layer(0);
        let initial = Layer::initial(LayerType::Background);
        counts.image == 1
            && first.image == initial.image
            && counts.repeat == 1
            && first.repeat == initial.repeat
            && counts.position_x == 1
            && first.position_x == initial.position_x
            && counts.position_y == 1
            && first.position_y == initial.position_y
            && counts.size == 1
            && first.size == initial.size
            && counts.clip == 1
            && first.clip == initial.clip
            && counts.origin == 1
            && first.origin == initial.origin
            && counts.attachment == 1
            && first.attachment == initial.attachment
            && counts.blend_mode == 1
            && first.blend_mode == initial.blend_mode
    }
}

} // verus!
