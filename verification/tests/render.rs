use oxdi::json::parse;
use oxdi::models::RetrieveEntry;
use oxdi::render::{decimal, render, render_examples, render_senses, Missing, Span, Style};

fn answer(text: &str) -> RetrieveEntry {
    RetrieveEntry::from_json(parse(text.as_bytes()).expect("the fixture is JSON"))
        .expect("the fixture is an answer")
}

fn pieces(spans: &[Span]) -> Vec<(Style, &str)> {
    spans.iter().map(|span| (span.style, span.text.as_str())).collect()
}

fn lexical(category: &str, entries: &str) -> String {
    format!(
        r#"{{"results": [{{"id": "crab", "language": "en-gb", "word": "crab",
            "lexicalEntries": [{{"language": "en-gb", "text": "crab",
                "lexicalCategory": {{"id": "{}", "text": "Category"}}{}}}]}}]}}"#,
        category, entries
    )
}

#[test]
fn decimal_writes_numbers() {
    assert_eq!(decimal(0), "0");
    assert_eq!(decimal(7), "7");
    assert_eq!(decimal(10), "10");
    assert_eq!(decimal(109), "109");
    assert_eq!(decimal(65536), "65536");
    assert_eq!(decimal(usize::MAX), usize::MAX.to_string());
}

#[test]
fn messages_of_what_is_missing() {
    assert_eq!(Missing::Results.message(), "no results returned");
    assert_eq!(Missing::Entries.message(), "no entries in lexical entry");
    assert_eq!(Missing::Pronunciations.message(), "no pronunciations");
    assert_eq!(Missing::PhoneticSpelling.message(), "no phonetic spelling");
    assert_eq!(Missing::Dialects.message(), "no dialects");
    assert_eq!(Missing::Definitions.message(), "no definitions");
}

#[test]
fn render_needs_results() {
    assert_eq!(render(&answer("{}")).unwrap_err(), Missing::Results);
    assert!(render(&answer(r#"{"results": []}"#)).unwrap().is_empty());
}

#[test]
fn render_needs_entries() {
    assert_eq!(render(&answer(&lexical("noun", ""))).unwrap_err(), Missing::Entries);
}

#[test]
fn render_needs_pronunciations() {
    let text = lexical("noun", r#", "entries": [{"senses": []}]"#);
    assert_eq!(render(&answer(&text)).unwrap_err(), Missing::Pronunciations);
}

#[test]
fn render_needs_spelling_before_dialects() {
    let text = lexical("noun", r#", "entries": [{"pronunciations": [{}]}]"#);
    assert_eq!(render(&answer(&text)).unwrap_err(), Missing::PhoneticSpelling);
    let text = lexical("noun", r#", "entries": [{"pronunciations": [{"dialects": ["x"]}]}]"#);
    assert_eq!(render(&answer(&text)).unwrap_err(), Missing::PhoneticSpelling);
    let text =
        lexical("noun", r#", "entries": [{"pronunciations": [{"phoneticSpelling": "krab"}]}]"#);
    assert_eq!(render(&answer(&text)).unwrap_err(), Missing::Dialects);
}

#[test]
fn render_needs_definitions() {
    let text = lexical(
        "noun",
        r#", "entries": [{"pronunciations": [], "senses": [{"definitions": ["a"]}, {"examples": [{"text": "e"}]}]}]"#,
    );
    assert_eq!(render(&answer(&text)).unwrap_err(), Missing::Definitions);
}

#[test]
fn render_gives_nothing_where_something_is_missing_later() {
    let text = r#"{"results": [
        {"id": "a", "language": "en-gb", "word": "a", "lexicalEntries": [
            {"language": "en-gb", "text": "a", "lexicalCategory": {"id": "noun", "text": "Noun"},
             "entries": [{"pronunciations": []}]}]},
        {"id": "b", "language": "en-gb", "word": "b", "lexicalEntries": [
            {"language": "en-gb", "text": "b", "lexicalCategory": {"id": "noun", "text": "Noun"}}]}
    ]}"#;
    assert_eq!(render(&answer(text)).unwrap_err(), Missing::Entries);
}

#[test]
fn render_a_noun() {
    let text = r#"{"results": [{"id": "crab", "language": "en-gb", "word": "crab",
        "lexicalEntries": [{"language": "en-gb", "text": "crab",
            "lexicalCategory": {"id": "noun", "text": "Noun"},
            "entries": [{
                "pronunciations": [
                    {"phoneticSpelling": "krab", "dialects": ["British English", "American English"]},
                    {"phoneticSpelling": "kræb", "dialects": []}
                ],
                "senses": [
                    {"definitions": ["a crustacean", "its flesh"],
                     "examples": [{"text": "dressed crab"}]},
                    {"definitions": ["a louse"]},
                    {"definitions": [],
                     "examples": [{"text": "one"}, {"text": "two"}]}
                ]
            }]
        }]
    }]}"#;
    let spans = render(&answer(text)).unwrap();
    assert_eq!(
        pieces(&spans),
        vec![
            (Style::Underline, "crab"),
            (Style::Plain, ", "),
            (Style::Cyan, "Noun"),
            (Style::Plain, "\nPronunciations:\n"),
            (Style::Plain, "\t/"),
            (Style::Blue, "krab"),
            (Style::Plain, "/, British English, American English\n"),
            (Style::Plain, "\t/"),
            (Style::Blue, "kræb"),
            (Style::Plain, "/, \n"),
            (Style::Plain, "\t"),
            (Style::Green, "Definitions:"),
            (Style::Plain, "\n"),
            (Style::Plain, "\t1.1) a crustacean\n"),
            (Style::Plain, "\t1.2) its flesh\n"),
            (Style::Plain, "\t2.1) a louse\n"),
            (Style::Plain, "\t"),
            (Style::Bold, "Examples:"),
            (Style::Plain, "\n"),
            (Style::Plain, "\t1.1) dressed crab\n"),
            (Style::Plain, "\t3.1) one\n"),
            (Style::Plain, "\t3.2) two\n"),
        ]
    );
}

#[test]
fn render_styles_the_category() {
    let entries = r#", "entries": []"#;
    let spans = render(&answer(&lexical("verb", entries))).unwrap();
    assert_eq!(
        pieces(&spans),
        vec![
            (Style::Underline, "crab"),
            (Style::Plain, ", "),
            (Style::Magenta, "Category"),
            (Style::Plain, "\nPronunciations:\n"),
        ]
    );
    let spans = render(&answer(&lexical("adjective", entries))).unwrap();
    assert_eq!(spans[2].style, Style::Plain);
    let spans = render(&answer(&lexical("Noun", entries))).unwrap();
    assert_eq!(spans[2].style, Style::Plain);
    let spans = render(&answer(&lexical("noun", entries))).unwrap();
    assert_eq!(spans[2].style, Style::Cyan);
}

#[test]
fn render_an_entry_without_senses() {
    let text = lexical(
        "noun",
        r#", "entries": [{"pronunciations": [{"phoneticSpelling": "k", "dialects": ["d"]}]}]"#,
    );
    let spans = render(&answer(&text)).unwrap();
    assert_eq!(spans.len(), 7);
    assert_eq!(spans[6].text, "/, d\n");
}

#[test]
fn render_numbers_past_nine() {
    let definitions: Vec<String> = (0..12).map(|i| format!("\"d{}\"", i)).collect();
    let senses = format!(r#"[{{"definitions": [{}]}}]"#, definitions.join(","));
    let senses = oxdi::json::parse(senses.as_bytes()).unwrap();
    let senses = <Vec<oxdi::models::Sense> as oxdi::models::decode::Decode>::decode(&senses).unwrap();
    let spans = render_senses(&senses).unwrap();
    assert_eq!(spans.len(), 3 + 12 + 3);
    assert_eq!(spans[3].text, "\t1.1) d0\n");
    assert_eq!(spans[12].text, "\t1.10) d9\n");
    assert_eq!(spans[14].text, "\t1.12) d11\n");
    assert!(render_examples(&senses).is_empty());
}
