//! The font group: the font size in its several forms, the language, and
//! the font feature settings.

use vstd::prelude::*;
use crate::device::{unzoomed_units, Device};
use crate::style_group::Document;
use crate::values::{Atom, Length};

verus! {

/// The keyword that a font size was specified with, if any.
#[derive(Clone, Copy, Debug, PartialEq, Eq, Structural)]
pub enum FontSizeKeyword {
    XXSmall,
    XSmall,
    Small,
    Medium,
    Large,
    XLarge,
    XXLarge,
    XXXLarge,
    /// No keyword: the size was given as a length.
    NoKeyword,
}

/// How a font size derives from a keyword: the keyword's size times a factor
/// (in thousandths) plus an offset.
#[derive(Clone, Copy, Debug, PartialEq, Eq, Structural)]
pub struct KeywordInfo {
    pub kw: FontSizeKeyword,
    pub factor: i32,
    pub offset: Length,
}

/// The value of `font-size`.
#[derive(Clone, Copy, Debug, PartialEq, Eq, Structural)]
pub struct FontSize {
    pub computed_size: Length,
    pub used_size: Length,
    pub keyword_info: KeywordInfo,
}

/// The value of `-x-lang`: the language, as an interned name.
#[derive(Clone, Copy, Debug, PartialEq, Eq, Structural)]
pub struct XLang(pub Atom);

/// One font feature setting: the feature's four-letter tag and its value.
#[derive(Clone, Copy, Debug, PartialEq, Eq, Structural)]
pub struct FeatureTagValue {
    pub tag: u32,
    pub value: i32,
}

/// What the font group holds.
pub struct FontModel {
    pub size: Length,
    pub script_unconstrained_size: Length,
    pub used_size: Length,
    pub font_size_keyword: FontSizeKeyword,
    pub font_size_factor: i32,
    pub font_size_offset: Length,
    pub language: Atom,
    pub font_feature_settings: Seq<FeatureTagValue>,
}

impl FontModel {
    /// The value of `font-size` as the group shows it.
    pub open spec fn font_size(self) -> FontSize {
        FontSize {
            computed_size: self.size,
            used_size: self.used_size,
            keyword_info: KeywordInfo {
                kw: self.font_size_keyword,
                factor: self.font_size_factor,
                offset: self.font_size_offset,
            },
        }
    }

    /// The group after `font-size` was set: the computed size becomes every
    /// size that the group keeps.
    pub open spec fn with_font_size(self, v: FontSize) -> Self {
        FontModel {
            size: v.computed_size,
            script_unconstrained_size: v.computed_size,
            used_size: v.computed_size,
            font_size_keyword: v.keyword_info.kw,
            font_size_factor: v.keyword_info.factor,
            font_size_offset: v.keyword_info.offset,
            ..self
        }
    }

    /// The group after the font size of `other` was copied in: its size
    /// from before script scaling becomes the size, and its size the used
    /// size, which the cascade computes anew.
    pub open spec fn with_font_size_of(self, other: Self) -> Self {
        FontModel {
            size: other.script_unconstrained_size,
            script_unconstrained_size: other.script_unconstrained_size,
            used_size: other.size,
            font_size_keyword: other.font_size_keyword,
            font_size_factor: other.font_size_factor,
            font_size_offset: other.font_size_offset,
            ..self
        }
    }

    /// The group with a text zoom taken out of its three sizes.
    pub open spec fn unzoomed(self, zoom: int) -> Self {
        FontModel {
            size: Length { units: unzoomed_units(self.size.units as int, zoom) as i32 },
            script_unconstrained_size: Length {
                units: unzoomed_units(self.script_unconstrained_size.units as int, zoom) as i32,
            },
            used_size: Length { units: unzoomed_units(self.used_size.units as int, zoom) as i32 },
            ..self
        }
    }
}

/// The font group.
pub struct Font {
    pub size: Length,
    pub script_unconstrained_size: Length,
    pub used_size: Length,
    pub font_size_keyword: FontSizeKeyword,
    pub font_size_factor: i32,
    pub font_size_offset: Length,
    pub language: Atom,
    pub font_feature_settings: Vec<FeatureTagValue>,
}

impl View for Font {
    type V = FontModel;

    open spec fn view(&self) -> FontModel {
        FontModel {
            size: self.size,
            script_unconstrained_size: self.script_unconstrained_size,
            used_size: self.used_size,
            font_size_keyword: self.font_size_keyword,
            font_size_factor: self.font_size_factor,
            font_size_offset: self.font_size_offset,
            language: self.language,
            font_feature_settings: self.font_feature_settings@,
        }
    }
}

/// A copy of a list of settings.
fn copy_settings(settings: &[FeatureTagValue]) -> (copy: Vec<FeatureTagValue>)
    ensures
        copy@ == settings@,
{
    let mut copy: Vec<FeatureTagValue> = Vec::new();
    let mut i: usize = 0;
    while i < settings.len()
        invariant
            i <= settings@.len(),
            copy@.len() == i,
            forall|j: int| 0 <= j < i ==> copy@[j] == settings@[j],
        decreases settings@.len() - i,
    {
        copy.push(settings[i]);
        i += 1;
    }
    assert(copy@ =~= settings@);
    copy
}

impl Clone for Font {
    fn clone(&self) -> (copy: Self)
        ensures
            copy@ == self@,
    {
        Font {
            size: self.size,
            script_unconstrained_size: self.script_unconstrained_size,
            used_size: self.used_size,
            font_size_keyword: self.font_size_keyword,
            font_size_factor: self.font_size_factor,
            font_size_offset: self.font_size_offset,
            language: self.language,
            font_feature_settings: copy_settings(self.font_feature_settings.as_slice()),
        }
    }
}

impl Font {
    /// The font size where no document says otherwise: sixteen pixels, in
    /// app units.
    pub const MEDIUM_SIZE: i32 = 960;

    /// The initial font: the size and the language are the document's, all
    /// else is fixed.
    pub open spec fn initial_model(document: Option<Document>) -> FontModel {
        let size = Length {
            units: match document {
                Some(d) => d.default_font_size,
                None => Font::MEDIUM_SIZE,
            },
        };
        FontModel {
            size,
            script_unconstrained_size: size,
            used_size: size,
            font_size_keyword: FontSizeKeyword::Medium,
            font_size_factor: 1000,
            font_size_offset: Length { units: 0 },
            language: match document {
                Some(d) => Atom { id: d.language },
                None => Atom { id: 0 },
            },
            font_feature_settings: Seq::empty(),
        }
    }

    /// The initial font for a document, or for none.
    pub fn initial(document: Option<&Document>) -> (font: Self)
        ensures
            font@ == Font::initial_model(
                match document {
                    Some(d) => Some(*d),
                    None => None,
                },
            ),
    {
        let size = Length {
            units: match document {
                Some(d) => d.default_font_size,
                None => Font::MEDIUM_SIZE,
            },
        };
        Font {
            size,
            script_unconstrained_size: size,
            used_size: size,
            font_size_keyword: FontSizeKeyword::Medium,
            font_size_factor: 1000,
            font_size_offset: Length { units: 0 },
            language: match document {
                Some(d) => Atom { id: d.language },
                None => Atom { id: 0 },
            },
            font_feature_settings: Vec::new(),
        }
    }

    /// Takes the device's text zoom out of the three sizes.
    pub fn unzoom_fonts(&mut self, device: &Device)
        ensures
            final(self)@ == old(self)@.unzoomed(device.text_zoom.value as int),
    {
        self.size = device.unzoom_text(self.size);
        self.script_unconstrained_size = device.unzoom_text(self.script_unconstrained_size);
        self.used_size = device.unzoom_text(self.used_size);
    }

    /// Takes `font-size` over from `other`.
    pub fn copy_font_size_from(&mut self, other: &Self)
        ensures
            final(self)@ == old(self)@.with_font_size_of(other@),
    {
        self.script_unconstrained_size = other.script_unconstrained_size;
        self.size = other.script_unconstrained_size;
        self.used_size = other.size;
        self.font_size_keyword = other.font_size_keyword;
        self.font_size_factor = other.font_size_factor;
        self.font_size_offset = other.font_size_offset;
    }

    /// Resets `font-size` to what `other` holds, as copying does.
    pub fn reset_font_size(&mut self, other: &Self)
        ensures
            final(self)@ == old(self)@.with_font_size_of(other@),
    {
        self.copy_font_size_from(other)
    }

    /// Sets `font-size`. The used size of `v` is not taken: the cascade
    /// computes it anew.
    pub fn set_font_size(&mut self, v: FontSize)
        ensures
            final(self)@ == old(self)@.with_font_size(v),
    {
        let computed_size = v.computed_size;
        self.script_unconstrained_size = computed_size;
        self.size = computed_size;
        self.used_size = computed_size;
        self.font_size_keyword = v.keyword_info.kw;
        self.font_size_factor = v.keyword_info.factor;
        self.font_size_offset = v.keyword_info.offset;
    }

    /// The value of `font-size`.
    pub fn clone_font_size(&self) -> (v: FontSize)
        ensures
            v == self@.font_size(),
    {
        FontSize {
            computed_size: self.size,
            used_size: self.used_size,
            keyword_info: KeywordInfo {
                kw: self.font_size_keyword,
                factor: self.font_size_factor,
                offset: self.font_size_offset,
            },
        }
    }

    /// Sets `-x-lang`.
    #[allow(non_snake_case)]
    pub fn set__x_lang(&mut self, v: XLang)
        ensures
            final(self)@ == (FontModel { language: v.0, ..old(self)@ }),
    {
        self.language = v.0;
    }

    /// Takes `-x-lang` over from `other`.
    #[allow(non_snake_case)]
    pub fn copy__x_lang_from(&mut self, other: &Self)
        ensures
            final(self)@ == (FontModel { language: other@.language, ..old(self)@ }),
    {
        self.language = other.language;
    }

    /// Resets `-x-lang` to what `other` holds, as copying does.
    #[allow(non_snake_case)]
    pub fn reset__x_lang(&mut self, other: &Self)
        ensures
            final(self)@ == (FontModel { language: other@.language, ..old(self)@ }),
    {
        self.copy__x_lang_from(other)
    }

    /// The value of `-x-lang`.
    #[allow(non_snake_case)]
    pub fn clone__x_lang(&self) -> (v: XLang)
        ensures
            v == XLang(self@.language),
    {
        XLang(self.language)
    }

    /// Replaces the font feature settings by `v`.
    pub fn set_font_feature_settings(&mut self, v: &[FeatureTagValue])
        ensures
            final(self)@ == (FontModel { font_feature_settings: v@, ..old(self)@ }),
    {
        self.font_feature_settings = copy_settings(v);
    }

    /// Takes `font-feature-settings` over from `other`.
    pub fn copy_font_feature_settings_from(&mut self, other: &Self)
        ensures
            final(self)@ == (FontModel {
                font_feature_settings: other@.font_feature_settings,
                ..old(self)@
            }),
    {
        self.font_feature_settings = copy_settings(other.font_feature_settings.as_slice());
    }

    /// Resets `font-feature-settings` to what `other` holds, as copying does.
    pub fn reset_font_feature_settings(&mut self, other: &Self)
        ensures
            final(self)@ == (FontModel {
                font_feature_settings: other@.font_feature_settings,
                ..old(self)@
            }),
    {
        self.copy_font_feature_settings_from(other)
    }

    /// The value of `font-feature-settings`.
    pub fn clone_font_feature_settings(&self) -> (v: Vec<FeatureTagValue>)
        ensures
            v@ == self@.font_feature_settings,
    {
        copy_settings(self.font_feature_settings.as_slice())
    }

    /// Whether every property of the group that starts from a fixed value
    /// holds that value.
    pub open spec fn initial_values_hold(model: FontModel) -> bool {
        model.font_feature_settings.len() == 0
    }

    /// Whether every property of the group that starts from a fixed value
    /// holds that value.
    pub fn has_initial_values(&self) -> (holds: bool)
        ensures
            holds == Self::initial_values_hold(self@),
    {
        self.font_feature_settings.len() == 0
    }
}

} // verus!
