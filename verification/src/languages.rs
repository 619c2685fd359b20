//! The languages the service knows, and what each of them can be used for.

use crate::text::str_eq;
use vstd::prelude::*;

verus! {

/// A language of the dictionary service.
#[derive(Debug, Clone, Copy, PartialEq, Eq, Structural)]
pub enum Language {
    /// British English
    EnGb,
    /// American English
    EnUs,
    /// Arabic
    Ar,
    /// Chinese
    Zh,
    /// Farsi
    Fa,
    /// French
    Fr,
    /// Georgian
    Ka,
    /// German
    De,
    /// Greek
    El,
    /// Gujarati
    Gu,
    /// Hausa
    Ha,
    /// Hindi
    Hi,
    /// Igbo
    Ig,
    /// Indonesian
    Id,
    /// IsiXhosa
    Xh,
    /// IsiZulu
    Zu,
    /// Italian
    It,
    /// Latvian
    Lv,
    /// Malay
    Ms,
    /// Marathi
    Mr,
    /// Northern Sotho
    Nso,
    /// Portuguese
    Pt,
    /// Quechua
    Qu,
    /// Romanian
    Ro,
    /// Russian
    Ru,
    /// Setswana
    Tn,
    /// Spanish
    Es,
    /// Swahili
    Sw,
    /// Tajik
    Tg,
    /// Tamil
    Ta,
    /// Tatar
    Tt,
    /// Telugu
    Te,
    /// Tok Pisin
    Tpi,
    /// Turkmen
    Tk,
    /// Urdu
    Ur,
    /// Yoruba
    Yo,
}

/// Every language, in the order the service lists them.
pub open spec fn all_languages() -> Seq<Language> {
    seq![
        Language::EnGb,
        Language::EnUs,
        Language::Ar,
        Language::Zh,
        Language::Fa,
        Language::Fr,
        Language::Ka,
        Language::De,
        Language::El,
        Language::Gu,
        Language::Ha,
        Language::Hi,
        Language::Ig,
        Language::Id,
        Language::Xh,
        Language::Zu,
        Language::It,
        Language::Lv,
        Language::Ms,
        Language::Mr,
        Language::Nso,
        Language::Pt,
        Language::Qu,
        Language::Ro,
        Language::Ru,
        Language::Tn,
        Language::Es,
        Language::Sw,
        Language::Tg,
        Language::Ta,
        Language::Tt,
        Language::Te,
        Language::Tpi,
        Language::Tk,
        Language::Ur,
        Language::Yo,
    ]
}

/// Where a language stands in [`all_languages`].
pub open spec fn place(lang: Language) -> int {
    match lang {
        Language::EnGb => 0,
        Language::EnUs => 1,
        Language::Ar => 2,
        Language::Zh => 3,
        Language::Fa => 4,
        Language::Fr => 5,
        Language::Ka => 6,
        Language::De => 7,
        Language::El => 8,
        Language::Gu => 9,
        Language::Ha => 10,
        Language::Hi => 11,
        Language::Ig => 12,
        Language::Id => 13,
        Language::Xh => 14,
        Language::Zu => 15,
        Language::It => 16,
        Language::Lv => 17,
        Language::Ms => 18,
        Language::Mr => 19,
        Language::Nso => 20,
        Language::Pt => 21,
        Language::Qu => 22,
        Language::Ro => 23,
        Language::Ru => 24,
        Language::Tn => 25,
        Language::Es => 26,
        Language::Sw => 27,
        Language::Tg => 28,
        Language::Ta => 29,
        Language::Tt => 30,
        Language::Te => 31,
        Language::Tpi => 32,
        Language::Tk => 33,
        Language::Ur => 34,
        Language::Yo => 35,
    }
}

/// No language is left out of [`all_languages`].
pub proof fn lemma_all_languages_is_complete(lang: Language)
    ensures
        0 <= place(lang) < all_languages().len(),
        all_languages()[place(lang)] == lang,
{
}

/// The languages that English pairs with, in the order the service lists them.
pub open spec fn english_targets() -> Seq<Language> {
    seq![
        Language::Ar,
        Language::De,
        Language::El,
        Language::Es,
        Language::Fa,
        Language::Ha,
        Language::Hi,
        Language::Id,
        Language::Ig,
        Language::It,
        Language::Ka,
        Language::Mr,
        Language::Ms,
        Language::Nso,
        Language::Pt,
        Language::Ro,
        Language::Ru,
        Language::Tg,
        Language::Tk,
        Language::Tn,
        Language::Tpi,
        Language::Tt,
        Language::Xh,
        Language::Yo,
        Language::Zh,
        Language::Zu,
    ]
}

/// Both kinds of English: what most other languages pair with.
pub open spec fn english() -> Seq<Language> {
    seq![Language::EnGb, Language::EnUs]
}

/// No two languages share a code.
pub proof fn lemma_codes_are_distinct()
    ensures
        forall|a: Language, b: Language| a.spec_code() == b.spec_code() ==> a == b,
{
    assert forall|a: Language, b: Language| a.spec_code() == b.spec_code() implies a == b by {
        lemma_code_digest(a);
        lemma_code_digest(b);
    }
}

/// Enough of a code to tell it from every other: its length, its first two
/// letters and its last.
spec fn digest(code: Seq<char>) -> (int, char, char, char) {
    (code.len() as int, code[0], code[1], code.last())
}

spec fn code_digest(lang: Language) -> (int, char, char, char) {
    match lang {
        Language::EnGb => (5, 'e', 'n', 'b'),
        Language::EnUs => (5, 'e', 'n', 's'),
        Language::Ar => (2, 'a', 'r', 'r'),
        Language::Zh => (2, 'z', 'h', 'h'),
        Language::Fa => (2, 'f', 'a', 'a'),
        Language::Fr => (2, 'f', 'r', 'r'),
        Language::Ka => (2, 'k', 'a', 'a'),
        Language::De => (2, 'd', 'e', 'e'),
        Language::El => (2, 'e', 'l', 'l'),
        Language::Gu => (2, 'g', 'u', 'u'),
        Language::Ha => (2, 'h', 'a', 'a'),
        Language::Hi => (2, 'h', 'i', 'i'),
        Language::Ig => (2, 'i', 'g', 'g'),
        Language::Id => (2, 'i', 'd', 'd'),
        Language::Xh => (2, 'x', 'h', 'h'),
        Language::Zu => (2, 'z', 'u', 'u'),
        Language::It => (2, 'i', 't', 't'),
        Language::Lv => (2, 'l', 'v', 'v'),
        Language::Ms => (2, 'm', 's', 's'),
        Language::Mr => (2, 'm', 'r', 'r'),
        Language::Nso => (3, 'n', 's', 'o'),
        Language::Pt => (2, 'p', 't', 't'),
        Language::Qu => (2, 'q', 'u', 'u'),
        Language::Ro => (2, 'r', 'o', 'o'),
        Language::Ru => (2, 'r', 'u', 'u'),
        Language::Tn => (2, 't', 'n', 'n'),
        Language::Es => (2, 'e', 's', 's'),
        Language::Sw => (2, 's', 'w', 'w'),
        Language::Tg => (2, 't', 'g', 'g'),
        Language::Ta => (2, 't', 'a', 'a'),
        Language::Tt => (2, 't', 't', 't'),
        Language::Te => (2, 't', 'e', 'e'),
        Language::Tpi => (3, 't', 'p', 'i'),
        Language::Tk => (2, 't', 'k', 'k'),
        Language::Ur => (2, 'u', 'r', 'r'),
        Language::Yo => (2, 'y', 'o', 'o'),
    }
}

proof fn lemma_code_digest(lang: Language)
    ensures
        digest(lang.spec_code()) == code_digest(lang),
{
    reveal_strlit("en-gb");
    reveal_strlit("en-us");
    reveal_strlit("ar");
    reveal_strlit("zh");
    reveal_strlit("fa");
    reveal_strlit("fr");
    reveal_strlit("ka");
    reveal_strlit("de");
    reveal_strlit("el");
    reveal_strlit("gu");
    reveal_strlit("ha");
    reveal_strlit("hi");
    reveal_strlit("ig");
    reveal_strlit("id");
    reveal_strlit("xh");
    reveal_strlit("zu");
    reveal_strlit("it");
    reveal_strlit("lv");
    reveal_strlit("ms");
    reveal_strlit("mr");
    reveal_strlit("nso");
    reveal_strlit("pt");
    reveal_strlit("qu");
    reveal_strlit("ro");
    reveal_strlit("ru");
    reveal_strlit("tn");
    reveal_strlit("es");
    reveal_strlit("sw");
    reveal_strlit("tg");
    reveal_strlit("ta");
    reveal_strlit("tt");
    reveal_strlit("te");
    reveal_strlit("tpi");
    reveal_strlit("tk");
    reveal_strlit("ur");
    reveal_strlit("yo");
}

/// Looking a language up by its own code finds that language.
pub proof fn lemma_from_str_inverts_code(lang: Language)
    ensures
        Language::spec_from_str(lang.spec_code()) == Some(lang),
{
    lemma_codes_are_distinct();
}

/// A language that is found under a code has that code.
pub proof fn lemma_found_language_has_the_code(code: Seq<char>, lang: Language)
    requires
        Language::spec_from_str(code) == Some(lang),
    ensures
        lang.spec_code() == code,
{
}

impl Language {
    /// The code by which the service names this language.
    pub open spec fn spec_code(self) -> Seq<char> {
        match self {
            Language::EnGb => "en-gb"@,
            Language::EnUs => "en-us"@,
            Language::Ar => "ar"@,
            Language::Zh => "zh"@,
            Language::Fa => "fa"@,
            Language::Fr => "fr"@,
            Language::Ka => "ka"@,
            Language::De => "de"@,
            Language::El => "el"@,
            Language::Gu => "gu"@,
            Language::Ha => "ha"@,
            Language::Hi => "hi"@,
            Language::Ig => "ig"@,
            Language::Id => "id"@,
            Language::Xh => "xh"@,
            Language::Zu => "zu"@,
            Language::It => "it"@,
            Language::Lv => "lv"@,
            Language::Ms => "ms"@,
            Language::Mr => "mr"@,
            Language::Nso => "nso"@,
            Language::Pt => "pt"@,
            Language::Qu => "qu"@,
            Language::Ro => "ro"@,
            Language::Ru => "ru"@,
            Language::Tn => "tn"@,
            Language::Es => "es"@,
            Language::Sw => "sw"@,
            Language::Tg => "tg"@,
            Language::Ta => "ta"@,
            Language::Tt => "tt"@,
            Language::Te => "te"@,
            Language::Tpi => "tpi"@,
            Language::Tk => "tk"@,
            Language::Ur => "ur"@,
            Language::Yo => "yo"@,
        }
    }

    /// The language with the given code, if there is one.
    pub open spec fn spec_from_str(code: Seq<char>) -> Option<Language> {
        if exists|lang: Language| lang.spec_code() == code {
            Some(choose|lang: Language| lang.spec_code() == code)
        } else {
            None
        }
    }

    /// Whether the entries operation is offered for this language.
    pub open spec fn spec_entries_api(self) -> bool {
        match self {
            Language::EnGb
            | Language::EnUs
            | Language::Fr
            | Language::Gu
            | Language::Hi
            | Language::Lv
            | Language::Ro
            | Language::Es
            | Language::Sw
            | Language::Ta => true,
            _ => false,
        }
    }

    /// The languages this one can be paired with in a bilingual lookup, in the
    /// service's order, or `None` where it pairs with nothing.
    pub open spec fn spec_target_languages(self) -> Option<Seq<Language>> {
        match self {
            Language::EnGb | Language::EnUs => Some(english_targets()),
            Language::Ar
            | Language::Zh
            | Language::De
            | Language::El
            | Language::Ha
            | Language::Hi
            | Language::Id
            | Language::Xh
            | Language::Zu
            | Language::It
            | Language::Ms
            | Language::Mr
            | Language::Nso
            | Language::Pt
            | Language::Ru
            | Language::Tn
            | Language::Tt
            | Language::Te
            | Language::Tpi
            | Language::Tk
            | Language::Ur => Some(english()),
            Language::Qu => Some(seq![Language::Es]),
            Language::Es => Some(seq![Language::EnGb, Language::EnUs, Language::Qu]),
            _ => None,
        }
    }

    /// The language with the given code, if there is one. Codes are matched
    /// exactly: case matters.
    pub fn from_str(string: &str) -> (found: Option<Language>)
        ensures
            found == Language::spec_from_str(string@),
    {
        let all = Language::all();
        let mut i: usize = 0;
        while i < all.len()
            invariant
                i <= all.len(),
                all@ == all_languages(),
                forall|k: int| 0 <= k < i ==> all_languages()[k].spec_code() != string@,
            decreases all.len() - i,
        {
            if str_eq(string, all[i].code()) {
                proof {
                    lemma_codes_are_distinct();
                    assert(all[i as int].spec_code() == string@);
                }
                return Some(all[i]);
            }
            i += 1;
        }
        proof {
            assert forall|lang: Language| lang.spec_code() != string@ by {
                lemma_all_languages_is_complete(lang);
            }
        }
        None
    }

    /// Every language, in the order the service lists them.
    pub fn all() -> (all: &'static [Language])
        ensures
            all@ == all_languages(),
    {
        let all: &'static [Language] = &[
            Language::EnGb,
            Language::EnUs,
            Language::Ar,
            Language::Zh,
            Language::Fa,
            Language::Fr,
            Language::Ka,
            Language::De,
            Language::El,
            Language::Gu,
            Language::Ha,
            Language::Hi,
            Language::Ig,
            Language::Id,
            Language::Xh,
            Language::Zu,
            Language::It,
            Language::Lv,
            Language::Ms,
            Language::Mr,
            Language::Nso,
            Language::Pt,
            Language::Qu,
            Language::Ro,
            Language::Ru,
            Language::Tn,
            Language::Es,
            Language::Sw,
            Language::Tg,
            Language::Ta,
            Language::Tt,
            Language::Te,
            Language::Tpi,
            Language::Tk,
            Language::Ur,
            Language::Yo,
        ];
        assert(all@ =~= all_languages());
        all
    }

    /// The language as text: its code.
    pub fn to_string(&self) -> (text: String)
        ensures
            text@ == self.spec_code(),
    {
        self.code().to_owned()
    }

    /// The code by which the service names this language.
    pub fn code(&self) -> (code: &'static str)
        ensures
            code@ == self.spec_code(),
    {
        match self {
            Language::EnGb => "en-gb",
            Language::EnUs => "en-us",
            Language::Ar => "ar",
            Language::Zh => "zh",
            Language::Fa => "fa",
            Language::Fr => "fr",
            Language::Ka => "ka",
            Language::De => "de",
            Language::El => "el",
            Language::Gu => "gu",
            Language::Ha => "ha",
            Language::Hi => "hi",
            Language::Ig => "ig",
            Language::Id => "id",
            Language::Xh => "xh",
            Language::Zu => "zu",
            Language::It => "it",
            Language::Lv => "lv",
            Language::Ms => "ms",
            Language::Mr => "mr",
            Language::Nso => "nso",
            Language::Pt => "pt",
            Language::Qu => "qu",
            Language::Ro => "ro",
            Language::Ru => "ru",
            Language::Tn => "tn",
            Language::Es => "es",
            Language::Sw => "sw",
            Language::Tg => "tg",
            Language::Ta => "ta",
            Language::Tt => "tt",
            Language::Te => "te",
            Language::Tpi => "tpi",
            Language::Tk => "tk",
            Language::Ur => "ur",
            Language::Yo => "yo",
        }
    }

    /// The languages this one can be paired with in a bilingual lookup.
    pub fn target_languages(&self) -> (targets: Option<&'static [Language]>)
        ensures
            targets matches Some(list) ==> self.spec_target_languages() == Some(list@),
            targets is None ==> self.spec_target_languages() is None,
    {
        let en_to_x: &'static [Language] = &[
            Language::Ar,
            Language::De,
            Language::El,
            Language::Es,
            Language::Fa,
            Language::Ha,
            Language::Hi,
            Language::Id,
            Language::Ig,
            Language::It,
            Language::Ka,
            Language::Mr,
            Language::Ms,
            Language::Nso,
            Language::Pt,
            Language::Ro,
            Language::Ru,
            Language::Tg,
            Language::Tk,
            Language::Tn,
            Language::Tpi,
            Language::Tt,
            Language::Xh,
            Language::Yo,
            Language::Zh,
            Language::Zu,
        ];
        let en: &'static [Language] = &[Language::EnGb, Language::EnUs];
        let qu: &'static [Language] = &[Language::Es];
        let es: &'static [Language] = &[Language::EnGb, Language::EnUs, Language::Qu];
        assert(en_to_x@ =~= english_targets());
        assert(en@ =~= english());
        assert(qu@ =~= seq![Language::Es]);
        assert(es@ =~= seq![Language::EnGb, Language::EnUs, Language::Qu]);
        match self {
            Language::EnGb | Language::EnUs => Some(en_to_x),
            Language::Ar
            | Language::Zh
            | Language::De
            | Language::El
            | Language::Ha
            | Language::Hi
            | Language::Id
            | Language::Xh
            | Language::Zu
            | Language::It
            | Language::Ms
            | Language::Mr
            | Language::Nso
            | Language::Pt
            | Language::Ru
            | Language::Tn
            | Language::Tt
            | Language::Te
            | Language::Tpi
            | Language::Tk
            | Language::Ur => Some(en),
            Language::Qu => Some(qu),
            Language::Es => Some(es),
            _ => None,
        }
    }

    /// Whether the entries operation is offered for this language.
    pub fn entries_api(&self) -> (supported: bool)
        ensures
            supported == self.spec_entries_api(),
    {
        match self {
            Language::EnGb
            | Language::EnUs
            | Language::Fr
            | Language::Gu
            | Language::Hi
            | Language::Lv
            | Language::Ro
            | Language::Es
            | Language::Sw
            | Language::Ta => true,
            _ => false,
        }
    }
}

} // verus!
