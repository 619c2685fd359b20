use oxdi::languages::Language;

#[test]
fn from_str_finds_known_codes() {
    assert_eq!(Language::from_str("en-gb"), Some(Language::EnGb));
    assert_eq!(Language::from_str("tpi"), Some(Language::Tpi));
    assert_eq!(Language::from_str("yo"), Some(Language::Yo));
}

#[test]
fn from_str_rejects_unknown_codes() {
    assert_eq!(Language::from_str(""), None);
    assert_eq!(Language::from_str("EN-GB"), None);
    assert_eq!(Language::from_str("en"), None);
    assert_eq!(Language::from_str("en-gbx"), None);
}

#[test]
fn from_str_inverts_code() {
    for &language in Language::all() {
        assert_eq!(Language::from_str(language.code()), Some(language));
    }
}

#[test]
fn codes_are_distinct() {
    for (i, a) in Language::all().iter().enumerate() {
        for b in &Language::all()[i + 1..] {
            assert_ne!(a.code(), b.code());
        }
    }
}

#[test]
fn codes() {
    assert_eq!(Language::EnGb.code(), "en-gb");
    assert_eq!(Language::EnUs.code(), "en-us");
    assert_eq!(Language::Nso.code(), "nso");
    assert_eq!(Language::Zh.code(), "zh");
    assert_eq!(Language::Ta.code(), "ta");
}

#[test]
fn entries_api_is_offered_for_ten_languages() {
    let offered: Vec<Language> = Language::all().iter().copied().filter(|l| l.entries_api()).collect();
    assert_eq!(
        offered,
        vec![
            Language::EnGb, Language::EnUs, Language::Fr, Language::Gu, Language::Hi,
            Language::Lv, Language::Ro, Language::Es, Language::Sw, Language::Ta,
        ]
    );
}

#[test]
fn target_languages_of_english() {
    let expected = vec![
        Language::Ar, Language::De, Language::El, Language::Es, Language::Fa, Language::Ha,
        Language::Hi, Language::Id, Language::Ig, Language::It, Language::Ka, Language::Mr,
        Language::Ms, Language::Nso, Language::Pt, Language::Ro, Language::Ru, Language::Tg,
        Language::Tk, Language::Tn, Language::Tpi, Language::Tt, Language::Xh, Language::Yo,
        Language::Zh, Language::Zu,
    ];
    assert_eq!(Language::EnGb.target_languages().unwrap(), expected.as_slice());
    assert_eq!(Language::EnUs.target_languages().unwrap(), expected.as_slice());
}

#[test]
fn target_languages_of_the_others() {
    let english = [Language::EnGb, Language::EnUs];
    for language in [
        Language::Ar, Language::Zh, Language::De, Language::El, Language::Ha, Language::Hi,
        Language::Id, Language::Xh, Language::Zu, Language::It, Language::Ms, Language::Mr,
        Language::Nso, Language::Pt, Language::Ru, Language::Tn, Language::Tt, Language::Te,
        Language::Tpi, Language::Tk, Language::Ur,
    ] {
        assert_eq!(language.target_languages().unwrap(), &english[..]);
    }
    assert_eq!(Language::Qu.target_languages().unwrap(), &[Language::Es][..]);
    assert_eq!(
        Language::Es.target_languages().unwrap(),
        &[Language::EnGb, Language::EnUs, Language::Qu][..]
    );
    for language in [
        Language::Fa, Language::Fr, Language::Ka, Language::Gu, Language::Ig, Language::Lv,
        Language::Ro, Language::Sw, Language::Tg, Language::Ta, Language::Yo,
    ] {
        assert!(language.target_languages().is_none());
    }
}

#[test]
fn all_lists_every_language_once() {
    let all = Language::all();
    assert_eq!(all.len(), 36);
    assert_eq!(all[0], Language::EnGb);
    assert_eq!(all[35], Language::Yo);
    for (i, a) in all.iter().enumerate() {
        for b in &all[i + 1..] {
            assert_ne!(a, b);
        }
    }
}
