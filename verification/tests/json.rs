use oxdi::json::{parse, Json};

#[test]
fn parse_reads_an_object() {
    let doc = parse(br#"{"b": [1, "x", null, true], "a": {"k": -2.5}}"#).unwrap();
    assert!(doc.is_object());
    match doc.get("b") {
        Some(Json::Array(items)) => {
            assert_eq!(items.len(), 4);
            assert!(matches!(&items[0], Json::Number(n) if n == "1"));
            assert!(matches!(&items[1], Json::String(s) if s == "x"));
            assert!(matches!(&items[2], Json::Null));
            assert!(matches!(&items[3], Json::Bool(true)));
        }
        other => panic!("unexpected member {:?}", other),
    }
    match doc.get("a").and_then(|a| a.get("k")) {
        Some(Json::Number(n)) => assert_eq!(n, "-2.5"),
        other => panic!("unexpected member {:?}", other),
    }
    assert!(doc.get("c").is_none());
}

#[test]
fn parse_rejects_what_is_no_document() {
    assert!(parse(b"").is_none());
    assert!(parse(b"{").is_none());
    assert!(parse(b"{} x").is_none());
    assert!(parse(&[0xff, 0xfe]).is_none());
}
