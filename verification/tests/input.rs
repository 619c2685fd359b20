use oxdi::input::{parse_lang, parse_word};
use oxdi::Language;

#[test]
fn parse_lang_takes_any_case() {
    assert_eq!(parse_lang("en-gb"), Ok(Language::EnGb));
    assert_eq!(parse_lang("EN-GB"), Ok(Language::EnGb));
    assert_eq!(parse_lang("Es"), Ok(Language::Es));
    assert_eq!(parse_lang("TPI"), Ok(Language::Tpi));
}

#[test]
fn parse_lang_refuses_what_is_no_code() {
    let problem = "invalid lang code, see documentation for valid language codes".to_string();
    assert_eq!(parse_lang(""), Err(problem.clone()));
    assert_eq!(parse_lang("english"), Err(problem.clone()));
    assert_eq!(parse_lang(" en-gb"), Err(problem.clone()));
    assert_eq!(parse_lang("en_gb"), Err(problem));
}

#[test]
fn parse_word_takes_letters() {
    assert_eq!(parse_word("crab"), Ok("crab".to_string()));
    assert_eq!(parse_word("Crab"), Ok("Crab".to_string()));
    assert_eq!(parse_word("naïve"), Ok("naïve".to_string()));
    assert_eq!(parse_word("слово"), Ok("слово".to_string()));
}

#[test]
fn parse_word_refuses_the_empty_word() {
    assert_eq!(parse_word(""), Err("must be non empty".to_string()));
}

#[test]
fn parse_word_refuses_what_is_no_letter() {
    let problem = "must contain only alphabetic characters".to_string();
    assert_eq!(parse_word("crab1"), Err(problem.clone()));
    assert_eq!(parse_word("two words"), Err(problem.clone()));
    assert_eq!(parse_word("-"), Err(problem.clone()));
    assert_eq!(parse_word("crab's"), Err(problem));
}
