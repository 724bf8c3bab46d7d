//! The inherited user-interface group: the color schemes an element
//! supports.

use vstd::prelude::*;

verus! {

/// The color schemes that an element supports, as a set of flags in one
/// byte.
#[derive(Clone, Copy, Debug, PartialEq, Eq, Structural)]
pub struct ColorSchemeFlags {
    pub bits: u8,
}

impl ColorSchemeFlags {
    /// The light scheme is supported.
    pub const LIGHT: u8 = 1;

    /// The dark scheme is supported.
    pub const DARK: u8 = 2;

    /// The user may not override the schemes named.
    pub const ONLY: u8 = 4;
}

/// The value of `color-scheme`.
#[derive(Clone, Copy, Debug, PartialEq, Eq, Structural)]
pub struct ColorScheme {
    pub bits: ColorSchemeFlags,
}

/// The inherited user-interface group.
#[derive(Clone, Copy, Debug, PartialEq, Eq, Structural)]
pub struct InheritedUI {
    pub color_scheme: ColorScheme,
}

impl View for InheritedUI {
    type V = InheritedUI;

    open spec fn view(&self) -> InheritedUI {
        *self
    }
}

impl InheritedUI {
    /// The initial group: no color scheme is named.
    pub open spec fn initial_model() -> InheritedUI {
        InheritedUI { color_scheme: ColorScheme { bits: ColorSchemeFlags { bits: 0 } } }
    }

    /// The initial group.
    pub fn initial() -> (group: Self)
        ensures
            group == InheritedUI::initial_model(),
    {
        InheritedUI { color_scheme: ColorScheme { bits: ColorSchemeFlags { bits: 0 } } }
    }

    /// The flags of `color-scheme`.
    pub fn color_scheme_bits(&self) -> (bits: ColorSchemeFlags)
        ensures
            bits == self.color_scheme.bits,
    {
        self.color_scheme.bits
    }

    /// Sets `color-scheme`.
    pub fn set_color_scheme(&mut self, v: ColorScheme)
        ensures
            *final(self) == (Self { color_scheme: v, ..*old(self) }),
    {
        self.color_scheme = v;
    }

    /// Takes `color-scheme` over from `other`.
    pub fn copy_color_scheme_from(&mut self, other: &Self)
        ensures
            *final(self) == (Self { color_scheme: other.color_scheme, ..*old(self) }),
    {
        self.color_scheme = other.color_scheme;
    }

    /// Resets `color-scheme` to what `other` holds, as copying does.
    pub fn reset_color_scheme(&mut self, other: &Self)
        ensures
            *final(self) == (Self { color_scheme: other.color_scheme, ..*old(self) }),
    {
        self.copy_color_scheme_from(other)
    }

    /// The value of `color-scheme`.
    pub fn clone_color_scheme(&self) -> (v: ColorScheme)
        ensures
            v == self.color_scheme,
    {
        self.color_scheme
    }

    /// Whether every property of the group that starts from a fixed value
    /// holds that value.
    pub open spec fn initial_values_hold(model: InheritedUI) -> bool {
        model == InheritedUI::initial_model()
    }

    /// Whether every property of the group that starts from a fixed value
    /// holds that value.
    pub fn has_initial_values(&self) -> (holds: bool)
        ensures
            holds == Self::initial_values_hold(*self),
    {
        *self == InheritedUI::initial()
    }
}

} // verus!
