//! Pseudo-elements, and the tag by which a style says whose style it is.

use vstd::prelude::*;

verus! {

/// A pseudo-element.
#[derive(Clone, Copy, Debug, PartialEq, Eq, Structural)]
pub enum PseudoElement {
    Before,
    After,
    Marker,
    FirstLine,
    FirstLetter,
    Placeholder,
    Selection,
    Backdrop,
}

/// The tag of a style: that of an element proper, or of one of its
/// pseudo-elements.
#[derive(Clone, Copy, Debug, PartialEq, Eq, Structural)]
pub enum PseudoStyleType {
    NotPseudo,
    Before,
    After,
    Marker,
    FirstLine,
    FirstLetter,
    Placeholder,
    Selection,
    Backdrop,
}

impl PseudoElement {
    /// The tag of the pseudo-element's style.
    pub open spec fn tag(self) -> PseudoStyleType {
        match self {
            PseudoElement::Before => PseudoStyleType::Before,
            PseudoElement::After => PseudoStyleType::After,
            PseudoElement::Marker => PseudoStyleType::Marker,
            PseudoElement::FirstLine => PseudoStyleType::FirstLine,
            PseudoElement::FirstLetter => PseudoStyleType::FirstLetter,
            PseudoElement::Placeholder => PseudoStyleType::Placeholder,
            PseudoElement::Selection => PseudoStyleType::Selection,
            PseudoElement::Backdrop => PseudoStyleType::Backdrop,
        }
    }

    /// The pseudo-element that a tag stands for, if any.
    pub open spec fn of_tag(tag: PseudoStyleType) -> Option<PseudoElement> {
        match tag {
            PseudoStyleType::NotPseudo => None,
            PseudoStyleType::Before => Some(PseudoElement::Before),
            PseudoStyleType::After => Some(PseudoElement::After),
            PseudoStyleType::Marker => Some(PseudoElement::Marker),
            PseudoStyleType::FirstLine => Some(PseudoElement::FirstLine),
            PseudoStyleType::FirstLetter => Some(PseudoElement::FirstLetter),
            PseudoStyleType::Placeholder => Some(PseudoElement::Placeholder),
            PseudoStyleType::Selection => Some(PseudoElement::Selection),
            PseudoStyleType::Backdrop => Some(PseudoElement::Backdrop),
        }
    }

    /// The tag of the pseudo-element's style.
    pub fn pseudo_type(&self) -> (tag: PseudoStyleType)
        ensures
            tag == self.tag(),
            tag != PseudoStyleType::NotPseudo,
            PseudoElement::of_tag(tag) == Some(*self),
    {
        match self {
            PseudoElement::Before => PseudoStyleType::Before,
            PseudoElement::After => PseudoStyleType::After,
            PseudoElement::Marker => PseudoStyleType::Marker,
            PseudoElement::FirstLine => PseudoStyleType::FirstLine,
            PseudoElement::FirstLetter => PseudoStyleType::FirstLetter,
            PseudoElement::Placeholder => PseudoStyleType::Placeholder,
            PseudoElement::Selection => PseudoStyleType::Selection,
            PseudoElement::Backdrop => PseudoStyleType::Backdrop,
        }
    }

    /// The pseudo-element that a tag stands for; `None` exactly for the tag
    /// of an element proper.
    pub fn from_pseudo_type(tag: PseudoStyleType) -> (pseudo: Option<PseudoElement>)
        ensures
            pseudo == PseudoElement::of_tag(tag),
            pseudo is None <==> tag == PseudoStyleType::NotPseudo,
    {
        match tag {
            PseudoStyleType::NotPseudo => None,
            PseudoStyleType::Before => Some(PseudoElement::Before),
            PseudoStyleType::After => Some(PseudoElement::After),
            PseudoStyleType::Marker => Some(PseudoElement::Marker),
            PseudoStyleType::FirstLine => Some(PseudoElement::FirstLine),
            PseudoStyleType::FirstLetter => Some(PseudoElement::FirstLetter),
            PseudoStyleType::Placeholder => Some(PseudoElement::Placeholder),
            PseudoStyleType::Selection => Some(PseudoElement::Selection),
            PseudoStyleType::Backdrop => Some(PseudoElement::Backdrop),
        }
    }
}

} // verus!
