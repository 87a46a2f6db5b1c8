use ergani::json::{parse_json, numeral_to_i64, str_eq, Json};

fn parse(s: &str) -> Json {
    parse_json(s).expect("expected the text to parse")
}

#[test]
fn parse_accepts_scalars() {
    assert!(matches!(parse("null"), Json::Null));
    assert!(matches!(parse("true"), Json::Bool(true)));
    assert!(matches!(parse("false"), Json::Bool(false)));
    match parse("\"hello\"") {
        Json::Str(s) => assert_eq!(s, "hello"),
        _ => panic!("expected a string"),
    }
    match parse("-123.5e2") {
        Json::Num(raw) => assert_eq!(raw, "-123.5e2"),
        _ => panic!("expected a number"),
    }
}

#[test]
fn parse_accepts_whitespace_and_nesting() {
    let doc = parse(" { \"a\" : [ 1 , {\"b\": \"c\"} , [] ] , \"d\" : null } ");
    let a = doc.get("a").expect("member a");
    match a {
        Json::Arr(es) => {
            assert_eq!(es.len(), 3);
            assert!(matches!(&es[0], Json::Num(raw) if raw == "1"));
            assert_eq!(es[1].get_str("b").map(String::as_str), Some("c"));
            assert!(matches!(&es[2], Json::Arr(inner) if inner.is_empty()));
        },
        _ => panic!("expected an array"),
    }
    assert!(matches!(doc.get("d"), Some(Json::Null)));
    assert!(doc.get("missing").is_none());
}

#[test]
fn parse_decodes_escapes() {
    match parse(r#""a\"b\\c\/d\n\t\r\b\fA""#) {
        Json::Str(s) => assert_eq!(s, "a\"b\\c/d\n\t\r\u{8}\u{c}A"),
        _ => panic!("expected a string"),
    }
}

#[test]
fn parse_decodes_surrogate_pairs() {
    match parse(r#""😀""#) {
        Json::Str(s) => assert_eq!(s, "\u{1F600}"),
        _ => panic!("expected a string"),
    }
    assert!(parse_json(r#""\ud83d""#).is_none());
    assert!(parse_json(r#""\ude00""#).is_none());
}

#[test]
fn parse_rejects_malformed_texts() {
    for bad in [
        "", "{", "}", "[1,]", "{\"a\":}", "{\"a\" 1}", "nul", "truth", "01", "-", "1.",
        "1e", "\"unterminated", "{\"a\":1} trailing", "'single'", "{a:1}",
    ] {
        assert!(parse_json(bad).is_none(), "{:?} should not parse", bad);
    }
}

#[test]
fn parse_keeps_number_text() {
    match parse("[0,-0,1e10,0.5]") {
        Json::Arr(es) => {
            let raw: Vec<&str> = es
                .iter()
                .map(|e| match e {
                    Json::Num(raw) => raw.as_str(),
                    _ => panic!("expected numbers"),
                })
                .collect();
            assert_eq!(raw, ["0", "-0", "1e10", "0.5"]);
        },
        _ => panic!("expected an array"),
    }
}

#[test]
fn numerals_read_as_integers() {
    assert_eq!(numeral_to_i64("0"), Some(0));
    assert_eq!(numeral_to_i64("123"), Some(123));
    assert_eq!(numeral_to_i64("-45"), Some(-45));
    assert_eq!(numeral_to_i64("999999999999999999"), Some(999_999_999_999_999_999));
    assert_eq!(numeral_to_i64("1000000000000000000"), None);
    assert_eq!(numeral_to_i64(""), None);
    assert_eq!(numeral_to_i64("-"), None);
    assert_eq!(numeral_to_i64("12.5"), None);
    assert_eq!(numeral_to_i64("1e3"), None);
}

#[test]
fn integer_members_are_read_through_objects() {
    let doc = parse(r#"{"id": 42, "frac": 1.5}"#);
    assert_eq!(doc.get_i64("id"), Some(42));
    assert_eq!(doc.get_i64("frac"), None);
    assert_eq!(doc.get_i64("missing"), None);
}

#[test]
fn string_equality_helper_agrees_with_std() {
    assert!(str_eq("", ""));
    assert!(str_eq("αβγ", "αβγ"));
    assert!(!str_eq("a", "b"));
    assert!(!str_eq("a", "ab"));
}
