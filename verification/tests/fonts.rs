use computed_style::{
    Atom, Device, Document, FeatureTagValue, Font, FontSize, FontSizeKeyword, KeywordInfo, Length,
    XLang, Zoom,
};

fn size(units: i32, used: i32, kw: FontSizeKeyword, factor: i32, offset: i32) -> FontSize {
    FontSize {
        computed_size: Length { units },
        used_size: Length { units: used },
        keyword_info: KeywordInfo { kw, factor, offset: Length { units: offset } },
    }
}

#[test]
fn initial_font_without_a_document() {
    let font = Font::initial(None);
    assert_eq!(font.clone_font_size(), size(960, 960, FontSizeKeyword::Medium, 1000, 0));
    assert_eq!(font.script_unconstrained_size, Length { units: 960 });
    assert_eq!(font.clone__x_lang(), XLang(Atom { id: 0 }));
    assert!(font.clone_font_feature_settings().is_empty());
    assert!(font.has_initial_values());
}

#[test]
fn initial_font_of_a_document() {
    let document = Document { default_font_size: 780, language: 33 };
    let font = Font::initial(Some(&document));
    assert_eq!(font.clone_font_size(), size(780, 780, FontSizeKeyword::Medium, 1000, 0));
    assert_eq!(font.clone__x_lang(), XLang(Atom { id: 33 }));
}

#[test]
fn set_font_size_does_not_take_the_used_size() {
    let mut font = Font::initial(None);
    font.set_font_size(size(1200, 5, FontSizeKeyword::Large, 1200, 60));
    assert_eq!(font.size, Length { units: 1200 });
    assert_eq!(font.script_unconstrained_size, Length { units: 1200 });
    assert_eq!(font.used_size, Length { units: 1200 });
    assert_eq!(font.clone_font_size(), size(1200, 1200, FontSizeKeyword::Large, 1200, 60));
}

#[test]
fn copy_font_size_takes_the_unconstrained_size() {
    let mut source = Font::initial(None);
    source.set_font_size(size(1200, 0, FontSizeKeyword::NoKeyword, 1000, 0));
    source.size = Length { units: 900 };
    source.used_size = Length { units: 800 };
    let mut target = Font::initial(None);
    target.copy_font_size_from(&source);
    assert_eq!(target.script_unconstrained_size, Length { units: 1200 });
    assert_eq!(target.size, Length { units: 1200 });
    assert_eq!(target.used_size, Length { units: 900 });
    assert_eq!(target.font_size_keyword, FontSizeKeyword::NoKeyword);
    let mut reset = Font::initial(None);
    reset.reset_font_size(&source);
    assert_eq!(reset.clone_font_size(), target.clone_font_size());
    assert_eq!(reset.clone_font_size(), size(1200, 900, FontSizeKeyword::NoKeyword, 1000, 0));
}

#[test]
fn unzoom_takes_the_text_zoom_out_of_all_sizes() {
    let mut font = Font::initial(None);
    font.set_font_size(size(1440, 0, FontSizeKeyword::Medium, 1000, 0));
    font.used_size = Length { units: 960 };
    font.script_unconstrained_size = Length { units: 150 };
    font.unzoom_fonts(&Device { text_zoom: Zoom { value: 96 } });
    assert_eq!(font.size, Length { units: 960 });
    assert_eq!(font.used_size, Length { units: 640 });
    assert_eq!(font.script_unconstrained_size, Length { units: 100 });
    assert_eq!(font.font_size_keyword, FontSizeKeyword::Medium);
}

#[test]
fn unzoom_by_one_or_nothing_changes_nothing() {
    for value in [Zoom::ONE, 0] {
        let device = Device { text_zoom: Zoom { value } };
        assert_eq!(device.unzoom_text(Length { units: 777 }), Length { units: 777 });
        assert_eq!(device.unzoom_text(Length { units: -777 }), Length { units: -777 });
    }
}

#[test]
fn unzoom_exact_values() {
    let half = Zoom { value: 32 };
    assert_eq!(half.unzoom(Length { units: 100 }), Length { units: 200 });
    assert_eq!(half.unzoom(Length { units: 0 }), Length { units: 0 });
    assert_eq!(half.unzoom(Length { units: -100 }), Length { units: -100 });
    let third = Zoom { value: 192 };
    assert_eq!(third.unzoom(Length { units: 100 }), Length { units: 33 });
    assert_eq!(third.unzoom(Length { units: 2 }), Length { units: 0 });
    let tiny = Zoom { value: 1 };
    assert_eq!(tiny.unzoom(Length { units: i32::MAX }), Length { units: i32::MAX });
    assert_eq!(tiny.unzoom(Length { units: 33554432 }), Length { units: i32::MAX });
    assert_eq!(tiny.unzoom(Length { units: 33554431 }), Length { units: 2147483584 });
    let most = Zoom { value: u16::MAX };
    assert_eq!(most.unzoom(Length { units: i32::MAX }), Length { units: 2097183 });
}

#[test]
fn language_is_set_copied_and_reset() {
    let mut font = Font::initial(None);
    font.set__x_lang(XLang(Atom { id: 5 }));
    assert_eq!(font.clone__x_lang(), XLang(Atom { id: 5 }));
    let mut other = Font::initial(None);
    other.copy__x_lang_from(&font);
    assert_eq!(other.clone__x_lang(), XLang(Atom { id: 5 }));
    let document = Document { default_font_size: 960, language: 9 };
    other.reset__x_lang(&Font::initial(Some(&document)));
    assert_eq!(other.clone__x_lang(), XLang(Atom { id: 9 }));
    assert_eq!(font.clone__x_lang(), XLang(Atom { id: 5 }));
}

#[test]
fn feature_settings_replace_what_was_there() {
    let mut font = Font::initial(None);
    let first = vec![
        FeatureTagValue { tag: 0x6c696761, value: 0 },
        FeatureTagValue { tag: 0x736d6370, value: 1 },
    ];
    font.set_font_feature_settings(&first);
    assert_eq!(font.clone_font_feature_settings(), first);
    assert!(!font.has_initial_values());
    let second = vec![FeatureTagValue { tag: 0x6b65726e, value: -1 }];
    font.set_font_feature_settings(&second);
    assert_eq!(font.clone_font_feature_settings(), second);
    let mut other = Font::initial(None);
    other.copy_font_feature_settings_from(&font);
    assert_eq!(other.clone_font_feature_settings(), second);
    other.reset_font_feature_settings(&Font::initial(None));
    assert!(other.clone_font_feature_settings().is_empty());
    let copy = font.clone();
    font.set_font_feature_settings(&[]);
    assert_eq!(copy.clone_font_feature_settings(), second);
}
