//! Storage and sharing of computed style.
//!
//! The computed values of an element are kept in groups, one per category of
//! properties. A group is shared by every element whose values in the
//! category are the same, and copied when one of them writes to it
//! ([`shared`], [`defaults`], [`computed_values`]). Every property follows
//! one of five patterns:
//!
//! - a plain value is set, copied, reset and read as it is;
//! - a keyword is stored as its native number and decoded when read
//!   ([`keyword`]);
//! - a width that depends on a line style keeps what was specified next to
//!   what is in effect ([`dependent_width`]);
//! - a sub-property of the `background` and `mask` layers declares a list of
//!   its own length over the one array of layers ([`layers`],
//!   [`sub_properties`]);
//! - a timing property keeps a list of its own length and is read by cycling
//!   over it ([`coordinated`], [`ui`]).

pub mod background;
pub mod border;
pub mod box_style;
pub mod column;
pub mod computed_values;
pub mod coordinated;
pub mod counters;
pub mod defaults;
pub mod dependent_width;
pub mod device;
pub mod font;
pub mod inherited_ui;
pub mod keyword;
pub mod layers;
pub mod margin;
pub mod outline;
pub mod padding;
pub mod position;
pub mod pseudo;
pub mod shared;
pub mod style_group;
pub mod sub_properties;
pub mod svg;
pub mod ui;
pub mod units;
pub mod values;

pub use background::{Background, BackgroundModel};
pub use border::{Border, BorderModel, BorderStyle, BoxDecorationBreak, Side};
pub use box_style::{BoxModel, BoxStyle, Clear, Contain, Display, Float};
pub use column::{Column, ColumnCount, ColumnFill, ColumnModel};
pub use computed_values::{
    assert_initial_values_match, display_changed_from_none, ComputedCustomProperties,
    ComputedValueFlags, ComputedValues, ComputedValuesInner, StrongRuleNode, WritingMode,
};
pub use coordinated::{CoordinatedPropertyList, EmptyList, ListModel, SingleValue};
pub use counters::{Content, Counters};
pub use defaults::{CachedDefault, DefaultStyles};
pub use dependent_width::{effective_width, DependentWidth, LineStyle, WidthModel};
pub use device::{unzoomed_units, Device, Zoom};
pub use font::{FeatureTagValue, Font, FontModel, FontSize, FontSizeKeyword, KeywordInfo, XLang};
pub use inherited_ui::{ColorScheme, ColorSchemeFlags, InheritedUI};
pub use keyword::{Encoded, Keyword};
pub use layers::{
    layer_repeat, repeat_keyword, Attachment, BackgroundRepeat, BackgroundRepeatKeyword,
    BackgroundSize, BlendMode, Clip, Composite, Image, Layer, LayerCounts, LayerRepeat,
    LayerType, LayeredArrayProperty, LayersModel, MaskMode, Origin, StyleImageLayerRepeat,
    SubProperty,
};
pub use margin::Margin;
pub use outline::{Outline, OutlineModel, OutlineStyle};
pub use padding::Padding;
pub use position::{
    AlignFlags, BoxSizing, ComputedJustifyItems, JustifyItems, Position, PositionModel, ZIndex,
};
pub use pseudo::{PseudoElement, PseudoStyleType};
pub use shared::{same_allocation, sealed_values, shared_group, Handle, StyleStruct};
pub use style_group::{Document, StyleStructGroup};
pub use sub_properties::{
    AttachmentField, BlendModeField, ClipField, CompositeField, ImageField, MaskModeField,
    OriginField, PositionXField, PositionYField, RepeatField, SizeField,
};
pub use svg::{Svg, SvgModel};
pub use ui::{
    combined_duration, AnimationComposition, AnimationDirection, AnimationFillMode,
    AnimationIterationCount, AnimationName, AnimationPlayState, AnimationTimeline, ScrollAxis,
    TimelineName, TimingFunction, TransitionBehavior, TransitionProperty, UiModel,
    ViewTimelineInset, UI,
};
pub use units::au_units;
pub use values::{Atom, Length, LengthPercentage, LengthPercentageOrAuto, Time};
