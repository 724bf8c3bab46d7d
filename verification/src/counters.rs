//! The counters group: generated content.

use vstd::prelude::*;

verus! {

/// The value of `content`.
#[derive(Clone, Copy, Debug, PartialEq, Eq, Structural)]
pub enum Content {
    Normal,
    /// The keyword `none`.
    NoContent,
    /// A list of content items, by the number of the list.
    Items(u32),
}

impl Content {
    /// Whether the value is a list of items.
    pub fn is_items(&self) -> (items: bool)
        ensures
            items == (*self is Items),
    {
        match self {
            Content::Items(_) => true,
            _ => false,
        }
    }
}

/// The counters group.
#[derive(Clone, Copy, Debug, PartialEq, Eq, Structural)]
pub struct Counters {
    pub content: Content,
}

impl View for Counters {
    type V = Counters;

    open spec fn view(&self) -> Counters {
        *self
    }
}

impl Counters {
    /// The initial group: `content` is `normal`.
    pub open spec fn initial_model() -> Counters {
        Counters { content: Content::Normal }
    }

    /// The initial group.
    pub fn initial() -> (group: Self)
        ensures
            group == Counters::initial_model(),
    {
        Counters { content: Content::Normal }
    }

    /// Whether `content` would leave a pseudo-element unrendered: it is no
    /// list of items.
    pub fn ineffective_content_property(&self) -> (ineffective: bool)
        ensures
            ineffective == !(self.content is Items),
    {
        !self.content.is_items()
    }

    /// Sets `content`.
    pub fn set_content(&mut self, v: Content)
        ensures
            *final(self) == (Self { content: v, ..*old(self) }),
    {
        self.content = v;
    }

    /// Takes `content` over from `other`.
    pub fn copy_content_from(&mut self, other: &Self)
        ensures
            *final(self) == (Self { content: other.content, ..*old(self) }),
    {
        self.content = other.content;
    }

    /// Resets `content` to what `other` holds, as copying does.
    pub fn reset_content(&mut self, other: &Self)
        ensures
            *final(self) == (Self { content: other.content, ..*old(self) }),
    {
        self.copy_content_from(other)
    }

    /// The value of `content`.
    pub fn clone_content(&self) -> (v: Content)
        ensures
            v == self.content,
    {
        self.content
    }

    /// Whether every property of the group that starts from a fixed value
    /// holds that value.
    pub open spec fn initial_values_hold(model: Counters) -> bool {
        model == Counters::initial_model()
    }

    /// Whether every property of the group that starts from a fixed value
    /// holds that value.
    pub fn has_initial_values(&self) -> (holds: bool)
        ensures
            holds == Self::initial_values_hold(*self),
    {
        *self == Counters::initial()
    }
}

} // verus!
