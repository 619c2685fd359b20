use oxdi::json::{parse, Json};
use oxdi::models::decode::{Decode, DeserializationError};
use oxdi::models::{
    Domain, Entry, ExampleText, HeadwordEntry, InflectedForm, LexicalEntry, Pronunciation,
    RetrieveEntry, Sense, ThesaurusLink,
};

fn document(text: &str) -> Json {
    parse(text.as_bytes()).expect("the fixture is JSON")
}

const ONE_SENSE: &str = r#"{
    "metadata": {"provider": "Oxford University Press", "schema": "RetrieveEntry"},
    "results": [{
        "id": "crab",
        "language": "en-gb",
        "lexicalEntries": [{
            "language": "en-gb",
            "lexicalCategory": {"id": "noun", "text": "Noun"},
            "text": "crab",
            "entries": [{
                "senses": [{
                    "definitions": ["a crustacean with a broad carapace", "the flesh of a crab as food"],
                    "examples": [{"text": "she ordered dressed crab"}]
                }]
            }]
        }],
        "word": "crab"
    }]
}"#;

#[test]
fn deserializes_one_headword_with_one_sense() {
    let answer = RetrieveEntry::from_json(document(ONE_SENSE)).unwrap();
    let results = answer.results.as_ref().unwrap();
    assert_eq!(results.len(), 1);
    assert_eq!(results[0].id, "crab");
    assert_eq!(results[0].language, "en-gb");
    assert_eq!(results[0].word.as_deref(), Some("crab"));
    assert_eq!(results[0].lexical_entries.len(), 1);
    let lexical = &results[0].lexical_entries[0];
    assert_eq!(lexical.text, "crab");
    assert_eq!(lexical.lexical_category.id, "noun");
    assert_eq!(lexical.lexical_category.text, "Noun");
    let entries = lexical.entries.as_ref().unwrap();
    assert_eq!(entries.len(), 1);
    let senses = entries[0].senses.as_ref().unwrap();
    assert_eq!(senses.len(), 1);
    assert_eq!(
        senses[0].definitions,
        Some(vec![
            "a crustacean with a broad carapace".to_string(),
            "the flesh of a crab as food".to_string()
        ])
    );
    let examples = senses[0].examples.as_ref().unwrap();
    assert_eq!(examples.len(), 1);
    assert_eq!(examples[0].text, "she ordered dressed crab");
}

#[test]
fn omitted_fields_are_absent_not_empty() {
    let answer = RetrieveEntry::from_json(document(ONE_SENSE)).unwrap();
    let headword = &answer.results.as_ref().unwrap()[0];
    assert!(headword.pronunciations.is_none());
    assert!(headword.type_.is_none());
    let lexical = &headword.lexical_entries[0];
    assert!(lexical.compounds.is_none());
    assert!(lexical.derivative_of.is_none());
    assert!(lexical.derivatives.is_none());
    assert!(lexical.grammatical_features.is_none());
    assert!(lexical.notes.is_none());
    assert!(lexical.phrasal_verbs.is_none());
    assert!(lexical.phrases.is_none());
    assert!(lexical.pronunciations.is_none());
    assert!(lexical.root.is_none());
    assert!(lexical.variant_forms.is_none());
    let entry = &lexical.entries.as_ref().unwrap()[0];
    assert!(entry.etymologies.is_none());
    assert!(entry.pronunciations.is_none());
    assert!(entry.homograph_number.is_none());
    let sense = &entry.senses.as_ref().unwrap()[0];
    assert!(sense.subsenses.is_none());
    assert!(sense.id.is_none());
    assert!(sense.domains.is_none());
    assert!(sense.short_definitions.is_none());
    let example = &sense.examples.as_ref().unwrap()[0];
    assert!(example.definitions.is_none());
    assert!(example.sense_ids.is_none());
}

#[test]
fn metadata_is_kept_as_written() {
    let answer = RetrieveEntry::from_json(document(ONE_SENSE)).unwrap();
    let metadata = answer.metadata.unwrap();
    assert!(matches!(metadata.get("provider"), Some(Json::String(s)) if s == "Oxford University Press"));
    assert!(matches!(metadata.get("schema"), Some(Json::String(s)) if s == "RetrieveEntry"));
    let answer = RetrieveEntry::from_json(document(r#"{"metadata": 3}"#)).unwrap();
    assert!(matches!(answer.metadata, Some(Json::Number(n)) if n == "3"));
    assert!(answer.results.is_none());
}

#[test]
fn empty_answer_has_nothing() {
    let answer = RetrieveEntry::from_json(document("{}")).unwrap();
    assert!(answer.metadata.is_none());
    assert!(answer.results.is_none());
    let answer = RetrieveEntry::from_json(document(r#"{"metadata": null, "results": null}"#)).unwrap();
    assert!(answer.metadata.is_none());
    assert!(answer.results.is_none());
    let answer = RetrieveEntry::from_json(document(r#"{"results": []}"#)).unwrap();
    assert_eq!(answer.results.unwrap().len(), 0);
}

#[test]
fn answer_that_is_no_object_is_refused() {
    assert!(RetrieveEntry::from_json(document("[]")).is_err());
    assert!(RetrieveEntry::from_json(document("null")).is_err());
    assert!(RetrieveEntry::from_json(document(r#""results""#)).is_err());
    assert!(RetrieveEntry::from_json(document(r#"{"results": {}}"#)).is_err());
    assert!(RetrieveEntry::from_json(document(r#"{"results": [1]}"#)).is_err());
}

#[test]
fn missing_lexical_entries_is_an_error() {
    let headword = document(r#"{"id": "crab", "language": "en-gb", "word": "crab"}"#);
    assert!(matches!(HeadwordEntry::decode(&headword), Err(DeserializationError)));
    let answer = document(r#"{"results": [{"id": "crab", "language": "en-gb", "word": "crab"}]}"#);
    assert!(matches!(RetrieveEntry::from_json(answer), Err(DeserializationError)));
}

#[test]
fn headword_without_any_lexical_entry_is_an_error() {
    let headword =
        document(r#"{"id": "crab", "language": "en-gb", "word": "crab", "lexicalEntries": []}"#);
    assert!(HeadwordEntry::decode(&headword).is_err());
    let headword =
        document(r#"{"id": "crab", "language": "en-gb", "word": "crab", "lexicalEntries": null}"#);
    assert!(HeadwordEntry::decode(&headword).is_err());
}

#[test]
fn headword_reads_its_optional_members() {
    let headword = document(
        r#"{"id": "crab", "language": "en-gb", "word": "crab", "type": "headword",
            "pronunciations": [{"phoneticSpelling": "krab", "dialects": ["British English"],
                                "audioFile": "crab.mp3", "phoneticNotation": "IPA"}],
            "lexicalEntries": [{"language": "en-gb", "text": "crab",
                                "lexicalCategory": {"id": "verb", "text": "Verb"},
                                "root": "crab", "extra": [1, 2, 3]}],
            "unknown": {"ignored": true}}"#,
    );
    let headword = HeadwordEntry::decode(&headword).unwrap();
    assert_eq!(headword.type_.as_deref(), Some("headword"));
    let pronunciations = headword.pronunciations.unwrap();
    assert_eq!(pronunciations.len(), 1);
    assert_eq!(pronunciations[0].phonetic_spelling.as_deref(), Some("krab"));
    assert_eq!(pronunciations[0].dialects, Some(vec!["British English".to_string()]));
    assert_eq!(pronunciations[0].audio_file.as_deref(), Some("crab.mp3"));
    assert_eq!(pronunciations[0].phonetic_notation.as_deref(), Some("IPA"));
    assert!(pronunciations[0].regions.is_none());
    assert_eq!(headword.lexical_entries[0].root.as_deref(), Some("crab"));
}

#[test]
fn wrong_types_are_errors() {
    assert!(Domain::decode(&document(r#"{"id": 1, "text": "x"}"#)).is_err());
    assert!(Domain::decode(&document(r#"{"id": null, "text": "x"}"#)).is_err());
    assert!(Domain::decode(&document(r#"{"id": "a"}"#)).is_err());
    assert!(Domain::decode(&document(r#"["a", "x"]"#)).is_err());
    assert!(Pronunciation::decode(&document(r#"{"dialects": "British"}"#)).is_err());
    assert!(Pronunciation::decode(&document(r#"{"dialects": ["British", 1]}"#)).is_err());
    assert!(Pronunciation::decode(&document(r#"{"regions": [{"id": "x"}]}"#)).is_err());
    assert!(Pronunciation::decode(&document(r#""krab""#)).is_err());
    assert!(Entry::decode(&document(r#"{"senses": {}}"#)).is_err());
    assert!(LexicalEntry::decode(&document(
        r#"{"language": "en", "text": "x", "lexicalCategory": "noun"}"#
    ))
    .is_err());
    assert!(InflectedForm::decode(&document(r#"{"inflectedForm": "crabs", "lexicalCategory": 3}"#))
        .is_err());
    let domain = Domain::decode(&document(r#"{"id": "a", "text": "x"}"#)).unwrap();
    assert_eq!((domain.id.as_str(), domain.text.as_str()), ("a", "x"));
}

#[test]
fn null_members_count_as_missing_where_they_may_be() {
    let entry = Entry::decode(&document(r#"{"senses": null, "etymologies": null}"#)).unwrap();
    assert!(entry.senses.is_none());
    assert!(entry.etymologies.is_none());
    let form =
        InflectedForm::decode(&document(r#"{"inflectedForm": "crabs", "lexicalCategory": null}"#))
            .unwrap();
    assert_eq!(form.inflected_form, "crabs");
    assert!(form.lexical_category.is_none());
}

#[test]
fn subsenses_keep_their_depth() {
    let sense = document(
        r#"{"definitions": ["top"],
            "subsenses": [
                {"definitions": ["middle one"],
                 "subsenses": [{"definitions": ["bottom", "deepest"]}]},
                {"definitions": ["middle two"]}
            ]}"#,
    );
    let sense = Sense::decode(&sense).unwrap();
    assert_eq!(sense.definitions, Some(vec!["top".to_string()]));
    let middle = sense.subsenses.as_ref().unwrap();
    assert_eq!(middle.len(), 2);
    assert_eq!(middle[0].definitions, Some(vec!["middle one".to_string()]));
    assert_eq!(middle[1].definitions, Some(vec!["middle two".to_string()]));
    assert!(middle[1].subsenses.is_none());
    let bottom = middle[0].subsenses.as_ref().unwrap();
    assert_eq!(bottom.len(), 1);
    assert_eq!(
        bottom[0].definitions,
        Some(vec!["bottom".to_string(), "deepest".to_string()])
    );
    assert!(bottom[0].subsenses.is_none());
}

#[test]
fn a_bad_subsense_spoils_the_sense() {
    assert!(Sense::decode(&document(r#"{"subsenses": [{"subsenses": [{"id": 1}]}]}"#)).is_err());
    assert!(Sense::decode(&document(r#"{"subsenses": {"id": "a"}}"#)).is_err());
    assert!(Sense::decode(&document(r#"{"subsenses": [[]]}"#)).is_err());
    assert!(Sense::decode(&document(r#"{"subsenses": []}"#)).unwrap().subsenses.unwrap().is_empty());
}

#[test]
fn sense_reads_every_member() {
    let sense = document(
        r#"{"antonyms": [{"text": "up"}],
            "constructions": [{"text": "c", "examples": [["one", "two"]]}],
            "crossReferenceMarkers": ["see also"],
            "crossReferences": [{"id": "x", "text": "X", "type": "see"}],
            "definitions": ["d"],
            "domainClasses": [{"id": "dc", "text": "DC"}],
            "domains": [{"id": "d", "text": "D"}],
            "etymologies": ["e"],
            "examples": [{"text": "ex", "senseIds": ["s1"]}],
            "id": "m_1",
            "inflections": [{"inflectedForm": "crabs"}],
            "notes": [{"text": "n", "type": "t"}],
            "pronunciations": [{"phoneticSpelling": "p"}],
            "regions": [{"id": "r", "text": "R"}],
            "registers": [{"id": "g", "text": "G"}],
            "semanticClasses": [{"id": "sc", "text": "SC"}],
            "shortDefinitions": ["sd"],
            "synonyms": [{"text": "same", "id": "same", "language": "en"}],
            "thesaurusLinks": [{"entry_id": "crab", "sense_id": "t_1"}],
            "variantForms": [{"text": "krab"}]}"#,
    );
    let sense = Sense::decode(&sense).unwrap();
    assert_eq!(sense.antonyms.unwrap()[0].text, "up");
    let constructions = sense.constructions.unwrap();
    assert_eq!(constructions[0].text, "c");
    let ExampleText(words) = &constructions[0].examples.as_ref().unwrap()[0];
    assert_eq!(words, &vec!["one".to_string(), "two".to_string()]);
    assert_eq!(sense.cross_reference_markers.unwrap(), vec!["see also".to_string()]);
    assert_eq!(sense.cross_references.unwrap()[0].type_, "see");
    assert_eq!(sense.domain_classes.unwrap()[0].text, "DC");
    assert_eq!(sense.domains.unwrap()[0].id, "d");
    assert_eq!(sense.etymologies.unwrap(), vec!["e".to_string()]);
    assert_eq!(sense.examples.unwrap()[0].sense_ids, Some(vec!["s1".to_string()]));
    assert_eq!(sense.id.as_deref(), Some("m_1"));
    assert_eq!(sense.inflections.unwrap()[0].inflected_form, "crabs");
    assert_eq!(sense.notes.unwrap()[0].type_, "t");
    assert_eq!(sense.pronunciations.unwrap()[0].phonetic_spelling.as_deref(), Some("p"));
    assert_eq!(sense.regions.unwrap()[0].text, "R");
    assert_eq!(sense.registers.unwrap()[0].text, "G");
    assert_eq!(sense.semantic_classes.unwrap()[0].id, "sc");
    assert_eq!(sense.short_definitions.unwrap(), vec!["sd".to_string()]);
    let synonyms = sense.synonyms.unwrap();
    assert_eq!(synonyms[0].language.as_deref(), Some("en"));
    assert_eq!(sense.thesaurus_links.unwrap()[0].sense_id, "t_1");
    assert_eq!(sense.variant_forms.unwrap()[0].text, "krab");
    assert!(sense.subsenses.is_none());
}

#[test]
fn thesaurus_link_members_are_named_with_underscores() {
    assert!(ThesaurusLink::decode(&document(r#"{"entryId": "a", "senseId": "b"}"#)).is_err());
    let link = ThesaurusLink::decode(&document(r#"{"entry_id": "a", "sense_id": "b"}"#)).unwrap();
    assert_eq!((link.entry_id.as_str(), link.sense_id.as_str()), ("a", "b"));
}

#[test]
fn lists_and_texts_decode_directly() {
    assert_eq!(String::decode(&document(r#""x""#)).unwrap(), "x");
    assert!(String::decode(&document("1")).is_err());
    let texts = Vec::<String>::decode(&document(r#"["a", "b"]"#)).unwrap();
    assert_eq!(texts, vec!["a".to_string(), "b".to_string()]);
    assert!(Vec::<String>::decode(&document(r#"{"0": "a"}"#)).is_err());
    let domains = Vec::<Domain>::decode(&document(r#"[{"id": "1", "text": "one"}, {"id": "2", "text": "two"}]"#)).unwrap();
    assert_eq!(domains[0].text, "one");
    assert_eq!(domains[1].text, "two");
}

#[test]
fn headword_without_word_is_read() {
    let answer = RetrieveEntry::from_json(document(
        r#"{"results":[{"id":"w","language":"en","lexicalEntries":[{"language":"en","lexicalCategory":{"id":"n","text":"N"},"text":"w"}]}]}"#,
    ))
    .unwrap();
    let results = answer.results.unwrap();
    assert_eq!(results.len(), 1);
    assert_eq!(results[0].id, "w");
    assert_eq!(results[0].language, "en");
    assert!(results[0].word.is_none());
    assert!(results[0].pronunciations.is_none());
    assert!(results[0].type_.is_none());
    assert_eq!(results[0].lexical_entries.len(), 1);
    assert_eq!(results[0].lexical_entries[0].text, "w");
    assert_eq!(results[0].lexical_entries[0].lexical_category.id, "n");
    assert!(results[0].lexical_entries[0].entries.is_none());
}

#[test]
fn headword_word_is_read_where_it_is_there() {
    let headword = document(
        r#"{"id": "w", "language": "en", "word": "W", "lexicalEntries": [
            {"language": "en", "lexicalCategory": {"id": "n", "text": "N"}, "text": "w"}]}"#,
    );
    assert_eq!(HeadwordEntry::decode(&headword).unwrap().word.as_deref(), Some("W"));
    let headword = document(
        r#"{"id": "w", "language": "en", "word": null, "lexicalEntries": [
            {"language": "en", "lexicalCategory": {"id": "n", "text": "N"}, "text": "w"}]}"#,
    );
    assert!(HeadwordEntry::decode(&headword).unwrap().word.is_none());
    let headword = document(
        r#"{"id": "w", "language": "en", "word": 7, "lexicalEntries": [
            {"language": "en", "lexicalCategory": {"id": "n", "text": "N"}, "text": "w"}]}"#,
    );
    assert!(HeadwordEntry::decode(&headword).is_err());
}

#[test]
fn numbers_are_kept_as_they_are_written_out() {
    let answer = RetrieveEntry::from_json(document(r#"{"metadata": [1e2, 7, -0.5]}"#)).unwrap();
    match answer.metadata {
        Some(Json::Array(items)) => {
            assert!(matches!(&items[0], Json::Number(n) if n == "100.0"));
            assert!(matches!(&items[1], Json::Number(n) if n == "7"));
            assert!(matches!(&items[2], Json::Number(n) if n == "-0.5"));
        }
        other => panic!("{:?}", other),
    }
}
