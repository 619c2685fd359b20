use oxdi::apis::entries::{
    joined_tokens, joined_fields, join_pairs, Field, Param,
};

#[test]
fn serialize_fields_in_the_order_given() {
    let query = Param::serialize(&[Param::Fields(&[Field::Definitions, Field::Examples])]);
    assert_eq!(query, "fields=definitions,examples");
}

#[test]
fn serialize_joins_params_in_the_order_given() {
    let query = Param::serialize(&[
        Param::LexicalCategory(&["noun"]),
        Param::Registers(&["formal"]),
    ]);
    assert_eq!(query, "lexicalCategory=noun&registers=formal");
    let query = Param::serialize(&[
        Param::Registers(&["formal"]),
        Param::LexicalCategory(&["noun"]),
    ]);
    assert_eq!(query, "registers=formal&lexicalCategory=noun");
}

#[test]
fn serialize_every_kind() {
    let query = Param::serialize(&[
        Param::Fields(&[Field::Pronunciations, Field::VariantForms]),
        Param::GrammaticalFeatures(&["singular", "past"]),
        Param::LexicalCategory(&["noun", "verb"]),
        Param::Domains(&["sport"]),
        Param::Registers(&["rare", "dated"]),
        Param::StrictMatch(&["true"]),
    ]);
    assert_eq!(
        query,
        "fields=pronunciations,variantForms&grammaticalFeatures=singular,past\
         &lexicalCategory=noun,verb&domains=sport&registers=rare,dated&strictMatch=true"
    );
}

#[test]
fn serialize_nothing_is_empty() {
    assert_eq!(Param::serialize(&[]), "");
}

#[test]
fn serialize_without_tokens_keeps_the_name() {
    assert_eq!(Param::serialize(&[Param::Domains(&[])]), "domains=");
    assert_eq!(Param::serialize(&[Param::Fields(&[])]), "fields=");
}

#[test]
fn serialize_writes_a_kind_twice_where_it_is_given_twice() {
    let query = Param::serialize(&[Param::Domains(&["art"]), Param::Domains(&["sport"])]);
    assert_eq!(query, "domains=art&domains=sport");
}

#[test]
fn serialize_escapes_what_a_query_cannot_hold() {
    let query = Param::serialize(&[Param::Domains(&["a&b=c", "d e"])]);
    assert_eq!(query, "domains=a%26b%3Dc,d+e");
}

#[test]
fn serialize_is_the_query_of_each_half() {
    let first = [Param::Fields(&[Field::Regions]), Param::Domains(&["art"])];
    let second = [Param::Registers(&["formal"])];
    let both = [
        Param::Fields(&[Field::Regions]),
        Param::Domains(&["art"]),
        Param::Registers(&["formal"]),
    ];
    assert_eq!(
        Param::serialize(&both),
        format!("{}&{}", Param::serialize(&first), Param::serialize(&second))
    );
}

#[test]
fn field_names_are_the_services() {
    assert_eq!(Field::Definitions.as_str(), "definitions");
    assert_eq!(Field::Domains.as_str(), "domains");
    assert_eq!(Field::Etymologies.as_str(), "etymologies");
    assert_eq!(Field::Examples.as_str(), "examples");
    assert_eq!(Field::Pronunciations.as_str(), "pronunciations");
    assert_eq!(Field::Regions.as_str(), "regions");
    assert_eq!(Field::Registers.as_str(), "registers");
    assert_eq!(Field::VariantForms.as_str(), "variantForms");
}

#[test]
fn joined_values() {
    assert_eq!(joined_fields(&[]), "");
    assert_eq!(joined_fields(&[Field::Examples]), "examples");
    assert_eq!(joined_fields(&[Field::Examples, Field::Domains]), "examples,domains");
    assert_eq!(joined_tokens(&["a", "b", "c"]), "a,b,c");
    assert_eq!(joined_tokens(&["", ""]), ",");
    assert_eq!(join_pairs(&vec!["a=1".to_string(), "b=2".to_string()]), "a=1&b=2");
    assert_eq!(join_pairs(&vec![]), "");
}

#[test]
fn distinct_kinds_are_told_from_repeated_ones() {
    assert!(Param::has_distinct_kinds(&[]));
    assert!(Param::has_distinct_kinds(&[Param::Domains(&["art"])]));
    assert!(Param::has_distinct_kinds(&[
        Param::Fields(&[Field::Regions]),
        Param::GrammaticalFeatures(&[]),
        Param::LexicalCategory(&[]),
        Param::Domains(&["art"]),
        Param::Registers(&[]),
        Param::StrictMatch(&[]),
    ]));
    assert!(!Param::has_distinct_kinds(&[Param::Domains(&["art"]), Param::Domains(&["art"])]));
    assert!(!Param::has_distinct_kinds(&[
        Param::Fields(&[Field::Regions]),
        Param::Domains(&["art"]),
        Param::Fields(&[]),
    ]));
}
