//! The group of transitions, animations and timelines: coordinated lists,
//! each of its own length, and what is asked of them together.

use vstd::prelude::*;
use crate::coordinated::{CoordinatedPropertyList, ListModel, SingleValue};
use crate::values::{Atom, LengthPercentageOrAuto, Time};

verus! {

/// Whether a transition may start for a property that changes in steps.
#[derive(Clone, Copy, Debug, PartialEq, Eq, Structural)]
pub enum TransitionBehavior {
    Normal,
    AllowDiscrete,
}

/// How a transition or an animation runs through its duration.
#[derive(Clone, Copy, Debug, PartialEq, Eq, Structural)]
pub enum TimingFunction {
    Linear,
    Ease,
    EaseIn,
    EaseOut,
    EaseInOut,
    StepStart,
    StepEnd,
}

/// The property that a transition is declared for.
#[derive(Clone, Copy, Debug, PartialEq, Eq, Structural)]
pub enum TransitionProperty {
    All,
    Longhand(u16),
    Custom(Atom),
}

/// The keyframes that an animation runs.
#[derive(Clone, Copy, Debug, PartialEq, Eq, Structural)]
pub enum AnimationName {
    /// The keyword `none`.
    NoName,
    Named(Atom),
}

/// The direction that an animation runs in.
#[derive(Clone, Copy, Debug, PartialEq, Eq, Structural)]
pub enum AnimationDirection {
    Normal,
    Reverse,
    Alternate,
    AlternateReverse,
}

/// What an animation shows outside the time it runs.
#[derive(Clone, Copy, Debug, PartialEq, Eq, Structural)]
pub enum AnimationFillMode {
    /// The keyword `none`.
    NoFill,
    Forwards,
    Backwards,
    Both,
}

/// Whether an animation runs or is paused.
#[derive(Clone, Copy, Debug, PartialEq, Eq, Structural)]
pub enum AnimationPlayState {
    Running,
    Paused,
}

/// How an animation combines with the value below it.
#[derive(Clone, Copy, Debug, PartialEq, Eq, Structural)]
pub enum AnimationComposition {
    Replace,
    Add,
    Accumulate,
}

/// How often an animation runs: without end, or a number of times in
/// thousandths.
#[derive(Clone, Copy, Debug, PartialEq, Eq, Structural)]
pub enum AnimationIterationCount {
    Infinite,
    Number(u32),
}

/// The axis that a scroll or view timeline follows.
#[derive(Clone, Copy, Debug, PartialEq, Eq, Structural)]
pub enum ScrollAxis {
    Block,
    Inline,
    Horizontal,
    Vertical,
}

/// The timeline that drives an animation.
#[derive(Clone, Copy, Debug, PartialEq, Eq, Structural)]
pub enum AnimationTimeline {
    Auto,
    /// The keyword `none`.
    NoTimeline,
    Named(Atom),
    Scroll(ScrollAxis),
    View(ScrollAxis),
}

impl AnimationTimeline {
    /// Whether the timeline is the keyword `auto`.
    pub fn is_auto(&self) -> (auto: bool)
        ensures
            auto == (*self == AnimationTimeline::Auto),
    {
        match self {
            AnimationTimeline::Auto => true,
            _ => false,
        }
    }
}

/// The name of a scroll or view timeline.
#[derive(Clone, Copy, Debug, PartialEq, Eq, Structural)]
pub enum TimelineName {
    /// The keyword `none`.
    NoName,
    Named(Atom),
}

/// How far a view timeline's range is moved in at its two ends.
#[derive(Clone, Copy, Debug, PartialEq, Eq, Structural)]
pub struct ViewTimelineInset {
    pub start: LengthPercentageOrAuto,
    pub end: LengthPercentageOrAuto,
}

impl ViewTimelineInset {
    /// No inset at either end.
    pub open spec fn auto_inset() -> ViewTimelineInset {
        ViewTimelineInset { start: LengthPercentageOrAuto::Auto, end: LengthPercentageOrAuto::Auto }
    }

    /// No inset at either end.
    pub fn auto() -> (inset: ViewTimelineInset)
        ensures
            inset == ViewTimelineInset::auto_inset(),
    {
        ViewTimelineInset { start: LengthPercentageOrAuto::Auto, end: LengthPercentageOrAuto::Auto }
    }
}

impl SingleValue for TransitionBehavior {
    fn same_as(&self, other: &Self) -> (same: bool) {
        *self == *other
    }
}

impl SingleValue for TimingFunction {
    fn same_as(&self, other: &Self) -> (same: bool) {
        *self == *other
    }
}

impl SingleValue for TransitionProperty {
    fn same_as(&self, other: &Self) -> (same: bool) {
        *self == *other
    }
}

impl SingleValue for AnimationName {
    fn same_as(&self, other: &Self) -> (same: bool) {
        *self == *other
    }
}

impl SingleValue for AnimationDirection {
    fn same_as(&self, other: &Self) -> (same: bool) {
        *self == *other
    }
}

impl SingleValue for AnimationFillMode {
    fn same_as(&self, other: &Self) -> (same: bool) {
        *self == *other
    }
}

impl SingleValue for AnimationPlayState {
    fn same_as(&self, other: &Self) -> (same: bool) {
        *self == *other
    }
}

impl SingleValue for AnimationComposition {
    fn same_as(&self, other: &Self) -> (same: bool) {
        *self == *other
    }
}

impl SingleValue for AnimationIterationCount {
    fn same_as(&self, other: &Self) -> (same: bool) {
        *self == *other
    }
}

impl SingleValue for ScrollAxis {
    fn same_as(&self, other: &Self) -> (same: bool) {
        *self == *other
    }
}

impl SingleValue for AnimationTimeline {
    fn same_as(&self, other: &Self) -> (same: bool) {
        *self == *other
    }
}

impl SingleValue for TimelineName {
    fn same_as(&self, other: &Self) -> (same: bool) {
        *self == *other
    }
}

impl SingleValue for ViewTimelineInset {
    fn same_as(&self, other: &Self) -> (same: bool) {
        *self == *other
    }
}

/// What the group holds: the model of every list.
pub struct UiModel {
    pub transition_behavior: ListModel<TransitionBehavior>,
    pub transition_delay: ListModel<Time>,
    pub transition_duration: ListModel<Time>,
    pub transition_timing_function: ListModel<TimingFunction>,
    pub transition_property: ListModel<TransitionProperty>,
    pub animation_name: ListModel<AnimationName>,
    pub animation_delay: ListModel<Time>,
    pub animation_duration: ListModel<Time>,
    pub animation_direction: ListModel<AnimationDirection>,
    pub animation_fill_mode: ListModel<AnimationFillMode>,
    pub animation_play_state: ListModel<AnimationPlayState>,
    pub animation_composition: ListModel<AnimationComposition>,
    pub animation_iteration_count: ListModel<AnimationIterationCount>,
    pub animation_timeline: ListModel<AnimationTimeline>,
    pub animation_timing_function: ListModel<TimingFunction>,
    pub scroll_timeline_name: ListModel<TimelineName>,
    pub scroll_timeline_axis: ListModel<ScrollAxis>,
    pub view_timeline_name: ListModel<TimelineName>,
    pub view_timeline_axis: ListModel<ScrollAxis>,
    pub view_timeline_inset: ListModel<ViewTimelineInset>,
}

/// The combined duration of a transition, in milliseconds: the duration, or
/// nothing where it is negative, and then the delay, negative or not.
pub open spec fn combined_duration(duration: int, delay: int) -> int {
    (if duration > 0 { duration } else { 0 }) + delay
}

impl UiModel {
    /// Every list keeps its invariant.
    pub open spec fn wf(self) -> bool {
        &&& self.transition_behavior.wf()
        &&& self.transition_delay.wf()
        &&& self.transition_duration.wf()
        &&& self.transition_timing_function.wf()
        &&& self.transition_property.wf()
        &&& self.animation_name.wf()
        &&& self.animation_delay.wf()
        &&& self.animation_duration.wf()
        &&& self.animation_direction.wf()
        &&& self.animation_fill_mode.wf()
        &&& self.animation_play_state.wf()
        &&& self.animation_composition.wf()
        &&& self.animation_iteration_count.wf()
        &&& self.animation_timeline.wf()
        &&& self.animation_timing_function.wf()
        &&& self.scroll_timeline_name.wf()
        &&& self.scroll_timeline_axis.wf()
        &&& self.view_timeline_name.wf()
        &&& self.view_timeline_axis.wf()
        &&& self.view_timeline_inset.wf()
    }

    /// The combined duration of the transition at `index`, in milliseconds.
    pub open spec fn transition_combined_duration_at(self, index: int) -> int {
        combined_duration(
            self.transition_duration.at(index).millis as int,
            self.transition_delay.at(index).millis as int,
        )
    }

    /// Whether any transition is specified: not where one transition alone
    /// is declared and its combined duration is not positive.
    pub open spec fn specifies_transitions(self) -> bool {
        &&& !(self.transition_property.count == 1 && self.transition_combined_duration_at(0) <= 0)
        &&& self.transition_property.count > 0
    }

    /// Whether the animation timeline is the initial one: one entry, the
    /// keyword `auto`.
    pub open spec fn has_initial_animation_timeline(self) -> bool {
        &&& self.animation_timeline.count == 1
        &&& self.animation_timeline.at(0) == AnimationTimeline::Auto
    }

    /// Whether the counts of all animation lists agree with those of
    /// `other`.
    pub open spec fn same_animation_counts(self, other: Self) -> bool {
        &&& self.animation_name.count == other.animation_name.count
        &&& self.animation_delay.count == other.animation_delay.count
        &&& self.animation_duration.count == other.animation_duration.count
        &&& self.animation_direction.count == other.animation_direction.count
        &&& self.animation_fill_mode.count == other.animation_fill_mode.count
        &&& self.animation_play_state.count == other.animation_play_state.count
        &&& self.animation_composition.count == other.animation_composition.count
        &&& self.animation_iteration_count.count == other.animation_iteration_count.count
        &&& self.animation_timeline.count == other.animation_timeline.count
        &&& self.animation_timing_function.count == other.animation_timing_function.count
    }

    /// Whether the animations equal those of `other`: every count, and every
    /// slot of every list.
    pub open spec fn same_animations(self, other: Self) -> bool {
        &&& self.animation_name.same_list(other.animation_name)
        &&& self.animation_delay.same_list(other.animation_delay)
        &&& self.animation_duration.same_list(other.animation_duration)
        &&& self.animation_direction.same_list(other.animation_direction)
        &&& self.animation_fill_mode.same_list(other.animation_fill_mode)
        &&& self.animation_play_state.same_list(other.animation_play_state)
        &&& self.animation_composition.same_list(other.animation_composition)
        &&& self.animation_iteration_count.same_list(other.animation_iteration_count)
        &&& self.animation_timeline.same_list(other.animation_timeline)
        &&& self.animation_timing_function.same_list(other.animation_timing_function)
    }

    /// Whether the scroll timelines equal those of `other`.
    pub open spec fn same_scroll_timelines(self, other: Self) -> bool {
        &&& self.scroll_timeline_name.same_list(other.scroll_timeline_name)
        &&& self.scroll_timeline_axis.same_list(other.scroll_timeline_axis)
    }

    /// Whether the view timelines equal those of `other`.
    pub open spec fn same_view_timelines(self, other: Self) -> bool {
        &&& self.view_timeline_name.same_list(other.view_timeline_name)
        &&& self.view_timeline_axis.same_list(other.view_timeline_axis)
        &&& self.view_timeline_inset.same_list(other.view_timeline_inset)
    }
}

/// The group of transitions, animations and timelines.
pub struct UI {
    pub transition_behavior: CoordinatedPropertyList<TransitionBehavior>,
    pub transition_delay: CoordinatedPropertyList<Time>,
    pub transition_duration: CoordinatedPropertyList<Time>,
    pub transition_timing_function: CoordinatedPropertyList<TimingFunction>,
    pub transition_property: CoordinatedPropertyList<TransitionProperty>,
    pub animation_name: CoordinatedPropertyList<AnimationName>,
    pub animation_delay: CoordinatedPropertyList<Time>,
    pub animation_duration: CoordinatedPropertyList<Time>,
    pub animation_direction: CoordinatedPropertyList<AnimationDirection>,
    pub animation_fill_mode: CoordinatedPropertyList<AnimationFillMode>,
    pub animation_play_state: CoordinatedPropertyList<AnimationPlayState>,
    pub animation_composition: CoordinatedPropertyList<AnimationComposition>,
    pub animation_iteration_count: CoordinatedPropertyList<AnimationIterationCount>,
    pub animation_timeline: CoordinatedPropertyList<AnimationTimeline>,
    pub animation_timing_function: CoordinatedPropertyList<TimingFunction>,
    pub scroll_timeline_name: CoordinatedPropertyList<TimelineName>,
    pub scroll_timeline_axis: CoordinatedPropertyList<ScrollAxis>,
    pub view_timeline_name: CoordinatedPropertyList<TimelineName>,
    pub view_timeline_axis: CoordinatedPropertyList<ScrollAxis>,
    pub view_timeline_inset: CoordinatedPropertyList<ViewTimelineInset>,
}

impl View for UI {
    type V = UiModel;

    open spec fn view(&self) -> UiModel {
        UiModel {
            transition_behavior: self.transition_behavior@,
            transition_delay: self.transition_delay@,
            transition_duration: self.transition_duration@,
            transition_timing_function: self.transition_timing_function@,
            transition_property: self.transition_property@,
            animation_name: self.animation_name@,
            animation_delay: self.animation_delay@,
            animation_duration: self.animation_duration@,
            animation_direction: self.animation_direction@,
            animation_fill_mode: self.animation_fill_mode@,
            animation_play_state: self.animation_play_state@,
            animation_composition: self.animation_composition@,
            animation_iteration_count: self.animation_iteration_count@,
            animation_timeline: self.animation_timeline@,
            animation_timing_function: self.animation_timing_function@,
            scroll_timeline_name: self.scroll_timeline_name@,
            scroll_timeline_axis: self.scroll_timeline_axis@,
            view_timeline_name: self.view_timeline_name@,
            view_timeline_axis: self.view_timeline_axis@,
            view_timeline_inset: self.view_timeline_inset@,
        }
    }
}

impl Clone for UI {
    fn clone(&self) -> (copy: Self)
        ensures
            copy@ == self@,
    {
        UI {
            transition_behavior: self.transition_behavior.clone(),
            transition_delay: self.transition_delay.clone(),
            transition_duration: self.transition_duration.clone(),
            transition_timing_function: self.transition_timing_function.clone(),
            transition_property: self.transition_property.clone(),
            animation_name: self.animation_name.clone(),
            animation_delay: self.animation_delay.clone(),
            animation_duration: self.animation_duration.clone(),
            animation_direction: self.animation_direction.clone(),
            animation_fill_mode: self.animation_fill_mode.clone(),
            animation_play_state: self.animation_play_state.clone(),
            animation_composition: self.animation_composition.clone(),
            animation_iteration_count: self.animation_iteration_count.clone(),
            animation_timeline: self.animation_timeline.clone(),
            animation_timing_function: self.animation_timing_function.clone(),
            scroll_timeline_name: self.scroll_timeline_name.clone(),
            scroll_timeline_axis: self.scroll_timeline_axis.clone(),
            view_timeline_name: self.view_timeline_name.clone(),
            view_timeline_axis: self.view_timeline_axis.clone(),
            view_timeline_inset: self.view_timeline_inset.clone(),
        }
    }
}

impl UI {
    /// The group's invariant: every list keeps its own.
    pub open spec fn wf(&self) -> bool {
        self@.wf()
    }

    /// The group in which no property was set: every list holds its one
    /// initial value.
    pub open spec fn initial_model() -> UiModel {
        UiModel {
            transition_behavior: ListModel::single(TransitionBehavior::Normal),
            transition_delay: ListModel::single(Time { millis: 0 }),
            transition_duration: ListModel::single(Time { millis: 0 }),
            transition_timing_function: ListModel::single(TimingFunction::Ease),
            transition_property: ListModel::single(TransitionProperty::All),
            animation_name: ListModel::single(AnimationName::NoName),
            animation_delay: ListModel::single(Time { millis: 0 }),
            animation_duration: ListModel::single(Time { millis: 0 }),
            animation_direction: ListModel::single(AnimationDirection::Normal),
            animation_fill_mode: ListModel::single(AnimationFillMode::NoFill),
            animation_play_state: ListModel::single(AnimationPlayState::Running),
            animation_composition: ListModel::single(AnimationComposition::Replace),
            animation_iteration_count: ListModel::single(AnimationIterationCount::Number(1000)),
            animation_timeline: ListModel::single(AnimationTimeline::Auto),
            animation_timing_function: ListModel::single(TimingFunction::Ease),
            scroll_timeline_name: ListModel::single(TimelineName::NoName),
            scroll_timeline_axis: ListModel::single(ScrollAxis::Block),
            view_timeline_name: ListModel::single(TimelineName::NoName),
            view_timeline_axis: ListModel::single(ScrollAxis::Block),
            view_timeline_inset: ListModel::single(ViewTimelineInset::auto_inset()),
        }
    }

    /// The group in which no property was set.
    pub fn initial() -> (ui: Self)
        ensures
            ui.wf(),
            ui@ == UI::initial_model(),
    {
        UI {
            transition_behavior: CoordinatedPropertyList::new(TransitionBehavior::Normal),
            transition_delay: CoordinatedPropertyList::new(Time { millis: 0 }),
            transition_duration: CoordinatedPropertyList::new(Time { millis: 0 }),
            transition_timing_function: CoordinatedPropertyList::new(TimingFunction::Ease),
            transition_property: CoordinatedPropertyList::new(TransitionProperty::All),
            animation_name: CoordinatedPropertyList::new(AnimationName::NoName),
            animation_delay: CoordinatedPropertyList::new(Time { millis: 0 }),
            animation_duration: CoordinatedPropertyList::new(Time { millis: 0 }),
            animation_direction: CoordinatedPropertyList::new(AnimationDirection::Normal),
            animation_fill_mode: CoordinatedPropertyList::new(AnimationFillMode::NoFill),
            animation_play_state: CoordinatedPropertyList::new(AnimationPlayState::Running),
            animation_composition: CoordinatedPropertyList::new(AnimationComposition::Replace),
            animation_iteration_count: CoordinatedPropertyList::new(
                AnimationIterationCount::Number(1000),
            ),
            animation_timeline: CoordinatedPropertyList::new(AnimationTimeline::Auto),
            animation_timing_function: CoordinatedPropertyList::new(TimingFunction::Ease),
            scroll_timeline_name: CoordinatedPropertyList::new(TimelineName::NoName),
            scroll_timeline_axis: CoordinatedPropertyList::new(ScrollAxis::Block),
            view_timeline_name: CoordinatedPropertyList::new(TimelineName::NoName),
            view_timeline_axis: CoordinatedPropertyList::new(ScrollAxis::Block),
            view_timeline_inset: CoordinatedPropertyList::new(ViewTimelineInset::auto()),
        }
    }

    /// The combined duration of the transition at `index`, in milliseconds:
    /// the duration, taken as nothing where it is negative, and the delay.
    pub fn transition_combined_duration_at(&self, index: usize) -> (millis: i64)
        requires
            self.wf(),
        ensures
            millis == self@.transition_combined_duration_at(index as int),
    {
        let duration = self.transition_duration.at(index).millis;
        let delay = self.transition_delay.at(index).millis;
        let floored: i64 = if duration > 0 { duration as i64 } else { 0 };
        floored + delay as i64
    }

    /// Whether there are any transitions specified.
    pub fn specifies_transitions(&self) -> (specified: bool)
        requires
            self.wf(),
        ensures
            specified == self@.specifies_transitions(),
            specified == !(self@.transition_property.count == 1
                && self@.transition_combined_duration_at(0) <= 0),
    {
        if self.transition_property.count() == 1 && self.transition_combined_duration_at(0) <= 0 {
            return false;
        }
        self.transition_property.count() > 0
    }

    /// Whether `animation-timeline` has its initial value, which decides how
    /// `animation-duration` resolves.
    pub fn has_initial_animation_timeline(&self) -> (initial: bool)
        requires
            self.wf(),
        ensures
            initial == self@.has_initial_animation_timeline(),
    {
        self.animation_timeline.count() == 1 && self.animation_timeline.at(0).is_auto()
    }

    /// Whether the animations equal those of `other`. The counts are held
    /// against each other first; only where all agree are the lists
    /// compared slot by slot.
    pub fn animations_equals(&self, other: &Self) -> (equal: bool)
        ensures
            equal == self@.same_animations(other@),
            !self@.same_animation_counts(other@) ==> !equal,
    {
        self.animation_name.count() == other.animation_name.count()
            && self.animation_delay.count() == other.animation_delay.count()
            && self.animation_direction.count() == other.animation_direction.count()
            && self.animation_duration.count() == other.animation_duration.count()
            && self.animation_fill_mode.count() == other.animation_fill_mode.count()
            && self.animation_iteration_count.count() == other.animation_iteration_count.count()
            && self.animation_play_state.count() == other.animation_play_state.count()
            && self.animation_timing_function.count() == other.animation_timing_function.count()
            && self.animation_composition.count() == other.animation_composition.count()
            && self.animation_timeline.count() == other.animation_timeline.count()
            && self.animation_name.equals(&other.animation_name)
            && self.animation_delay.equals(&other.animation_delay)
            && self.animation_direction.equals(&other.animation_direction)
            && self.animation_duration.equals(&other.animation_duration)
            && self.animation_fill_mode.equals(&other.animation_fill_mode)
            && self.animation_iteration_count.equals(&other.animation_iteration_count)
            && self.animation_play_state.equals(&other.animation_play_state)
            && self.animation_timing_function.equals(&other.animation_timing_function)
            && self.animation_composition.equals(&other.animation_composition)
            && self.animation_timeline.equals(&other.animation_timeline)
    }

    /// Whether the scroll timelines equal those of `other`: counts first,
    /// then the lists.
    pub fn scroll_timelines_equals(&self, other: &Self) -> (equal: bool)
        ensures
            equal == self@.same_scroll_timelines(other@),
    {
        self.scroll_timeline_name.count() == other.scroll_timeline_name.count()
            && self.scroll_timeline_axis.count() == other.scroll_timeline_axis.count()
            && self.scroll_timeline_name.equals(&other.scroll_timeline_name)
            && self.scroll_timeline_axis.equals(&other.scroll_timeline_axis)
    }

    /// Whether the view timelines equal those of `other`: counts first, then
    /// the lists.
    pub fn view_timelines_equals(&self, other: &Self) -> (equal: bool)
        ensures
            equal == self@.same_view_timelines(other@),
    {
        self.view_timeline_name.count() == other.view_timeline_name.count()
            && self.view_timeline_axis.count() == other.view_timeline_axis.count()
            && self.view_timeline_inset.count() == other.view_timeline_inset.count()
            && self.view_timeline_name.equals(&other.view_timeline_name)
            && self.view_timeline_axis.equals(&other.view_timeline_axis)
            && self.view_timeline_inset.equals(&other.view_timeline_inset)
    }

    /// Whether every property of the group that starts from a fixed value
    /// holds that value.
    pub open spec fn initial_values_hold(model: UiModel) -> bool {
        &&& model.transition_behavior.shows_only(TransitionBehavior::Normal)
        &&& model.transition_delay.shows_only(Time { millis: 0 })
        &&& model.transition_duration.shows_only(Time { millis: 0 })
        &&& model.transition_timing_function.shows_only(TimingFunction::Ease)
        &&& model.transition_property.shows_only(TransitionProperty::All)
        &&& model.animation_name.shows_only(AnimationName::NoName)
        &&& model.animation_delay.shows_only(Time { millis: 0 })
        &&& model.animation_duration.shows_only(Time { millis: 0 })
        &&& model.animation_direction.shows_only(AnimationDirection::Normal)
        &&& model.animation_fill_mode.shows_only(AnimationFillMode::NoFill)
        &&& model.animation_play_state.shows_only(AnimationPlayState::Running)
        &&& model.animation_composition.shows_only(AnimationComposition::Replace)
        &&& model.animation_iteration_count.shows_only(AnimationIterationCount::Number(1000))
        &&& model.animation_timeline.shows_only(AnimationTimeline::Auto)
        &&& model.animation_timing_function.shows_only(TimingFunction::Ease)
        &&& model.scroll_timeline_name.shows_only(TimelineName::NoName)
        &&& model.scroll_timeline_axis.shows_only(ScrollAxis::Block)
        &&& model.view_timeline_name.shows_only(TimelineName::NoName)
        &&& model.view_timeline_axis.shows_only(ScrollAxis::Block)
        &&& model.view_timeline_inset.shows_only(ViewTimelineInset::auto_inset())
    }

    /// Whether every property of the group that starts from a fixed value
    /// holds that value.
    pub fn has_initial_values(&self) -> (holds: bool)
        requires
            self.wf(),
        ensures
            holds == Self::initial_values_hold(self@),
    {
        self.transition_behavior.count() == 1
            && self.transition_behavior.at(0).same_as(&TransitionBehavior::Normal)
            && self.transition_delay.count() == 1
            && self.transition_delay.at(0).same_as(&Time { millis: 0 })
            && self.transition_duration.count() == 1
            && self.transition_duration.at(0).same_as(&Time { millis: 0 })
            && self.transition_timing_function.count() == 1
            && self.transition_timing_function.at(0).same_as(&TimingFunction::Ease)
            && self.transition_property.count() == 1
            && self.transition_property.at(0).same_as(&TransitionProperty::All)
            && self.animation_name.count() == 1
            && self.animation_name.at(0).same_as(&AnimationName::NoName)
            && self.animation_delay.count() == 1
            && self.animation_delay.at(0).same_as(&Time { millis: 0 })
            && self.animation_duration.count() == 1
            && self.animation_duration.at(0).same_as(&Time { millis: 0 })
            && self.animation_direction.count() == 1
            && self.animation_direction.at(0).same_as(&AnimationDirection::Normal)
            && self.animation_fill_mode.count() == 1
            && self.animation_fill_mode.at(0).same_as(&AnimationFillMode::NoFill)
            && self.animation_play_state.count() == 1
            && self.animation_play_state.at(0).same_as(&AnimationPlayState::Running)
            && self.animation_composition.count() == 1
            && self.animation_composition.at(0).same_as(&AnimationComposition::Replace)
            && self.animation_iteration_count.count() == 1
            && self.animation_iteration_count.at(0).same_as(&AnimationIterationCount::Number(1000))
            && self.animation_timeline.count() == 1
            && self.animation_timeline.at(0).same_as(&AnimationTimeline::Auto)
            && self.animation_timing_function.count() == 1
            && self.animation_timing_function.at(0).same_as(&TimingFunction::Ease)
            && self.scroll_timeline_name.count() == 1
            && self.scroll_timeline_name.at(0).same_as(&TimelineName::NoName)
            && self.scroll_timeline_axis.count() == 1
            && self.scroll_timeline_axis.at(0).same_as(&ScrollAxis::Block)
            && self.view_timeline_name.count() == 1
            && self.view_timeline_name.at(0).same_as(&TimelineName::NoName)
            && self.view_timeline_axis.count() == 1
            && self.view_timeline_axis.at(0).same_as(&ScrollAxis::Block)
            && self.view_timeline_inset.count() == 1
            && self.view_timeline_inset.at(0).same_as(&ViewTimelineInset::auto())
    }
}

/// Equality of animations is reflexive and symmetric, and fails wherever two
/// corresponding counts differ.
pub proof fn animations_equality_laws(a: UiModel, b: UiModel)
    ensures
        a.same_animations(a),
        a.same_animations(b) == b.same_animations(a),
        !a.same_animation_counts(b) ==> !a.same_animations(b),
{
}

/// Equality of scroll timelines is reflexive and symmetric, and fails
/// wherever two corresponding counts differ.
pub proof fn scroll_timelines_equality_laws(a: UiModel, b: UiModel)
    ensures
        a.same_scroll_timelines(a),
        a.same_scroll_timelines(b) == b.same_scroll_timelines(a),
        a.scroll_timeline_name.count != b.scroll_timeline_name.count ==> !a.same_scroll_timelines(
            b,
        ),
        a.scroll_timeline_axis.count != b.scroll_timeline_axis.count ==> !a.same_scroll_timelines(
            b,
        ),
{
}

/// Equality of view timelines is reflexive and symmetric, and fails wherever
/// two corresponding counts differ.
pub proof fn view_timelines_equality_laws(a: UiModel, b: UiModel)
    ensures
        a.same_view_timelines(a),
        a.same_view_timelines(b) == b.same_view_timelines(a),
        a.view_timeline_name.count != b.view_timeline_name.count ==> !a.same_view_timelines(b),
        a.view_timeline_axis.count != b.view_timeline_axis.count ==> !a.same_view_timelines(b),
        a.view_timeline_inset.count != b.view_timeline_inset.count ==> !a.same_view_timelines(b),
{
}

/// Only the duration is floored: a negative duration counts as nothing, a
/// negative delay still counts.
pub proof fn combined_duration_floors_the_duration(duration: int, delay: int)
    ensures
        duration <= 0 ==> combined_duration(duration, delay) == delay,
        duration >= 0 ==> combined_duration(duration, delay) == duration + delay,
{
}

} // verus!
