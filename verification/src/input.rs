//! What a user types, turned into what a lookup takes: a language by its
//! code, and a word.

use crate::languages::Language;
use vstd::prelude::*;
use vstd::string::*;

verus! {

/// A text with every letter in lower case, as `str::to_lowercase` gives it.
pub uninterp spec fn lowercase_text(text: Seq<char>) -> Seq<char>;

/// Whether a character is a letter, as `char::is_alphabetic` has it.
pub uninterp spec fn alphabetic(c: char) -> bool;

/// `str::to_lowercase` gives a text that depends on the given text alone; it
/// is named [`lowercase_text`].
pub assume_specification[ str::to_lowercase ](text: &str) -> (lower: String)
    ensures
        lower@ == lowercase_text(text@),
;

/// `char::is_alphabetic` depends on the character alone; it is named
/// [`alphabetic`].
pub assume_specification[ char::is_alphabetic ](c: char) -> (letter: bool)
    ensures
        letter == alphabetic(c),
;

/// Whether a text is made of letters only.
pub open spec fn all_alphabetic(text: Seq<char>) -> bool {
    forall|i: int| 0 <= i < text.len() ==> alphabetic(#[trigger] text[i])
}

/// What is wrong with a value that is no language.
pub open spec fn invalid_lang() -> Seq<char> {
    "invalid lang code, see documentation for valid language codes"@
}

/// What is wrong with a word that is empty.
pub open spec fn empty_word() -> Seq<char> {
    "must be non empty"@
}

/// What is wrong with a word that holds something other than letters.
pub open spec fn not_a_word() -> Seq<char> {
    "must contain only alphabetic characters"@
}

/// The language whose code is `value`, whatever the case it is written in.
pub fn parse_lang(value: &str) -> (parsed: Result<Language, String>)
    ensures
        match parsed {
            Ok(lang) => Language::spec_from_str(lowercase_text(value@)) == Some(lang),
            Err(problem) => Language::spec_from_str(lowercase_text(value@)) is None && problem@
                == invalid_lang(),
        },
{
    let lower = value.to_lowercase();
    match Language::from_str(lower.as_str()) {
        Some(lang) => Ok(lang),
        None => Err(
            "invalid lang code, see documentation for valid language codes".to_owned(),
        ),
    }
}

/// The word itself, where it is not empty and made of letters only.
pub fn parse_word(value: &str) -> (parsed: Result<String, String>)
    ensures
        match parsed {
            Ok(word) => value@.len() > 0 && all_alphabetic(value@) && word@ == value@,
            Err(problem) => if value@.len() == 0 {
                problem@ == empty_word()
            } else {
                !all_alphabetic(value@) && problem@ == not_a_word()
            },
        },
{
    let length = value.unicode_len();
    if length == 0 {
        return Err("must be non empty".to_owned());
    }
    let mut i: usize = 0;
    while i < length
        invariant
            i <= length,
            length == value@.len(),
            forall|k: int| 0 <= k < i ==> alphabetic(#[trigger] value@[k]),
        decreases length - i,
    {
        if !value.get_char(i).is_alphabetic() {
            return Err("must contain only alphabetic characters".to_owned());
        }
        i += 1;
    }
    Ok(value.to_owned())
}

} // verus!
