use tauri_mcp::json::{Json, Member};

fn object(members: Vec<(&str, Json)>) -> Json {
    Json::Object(
        members
            .into_iter()
            .map(|(key, value)| Member { key: key.to_string(), value })
            .collect(),
    )
}

#[test]
fn parse_reads_every_kind_of_value() {
    assert_eq!(Json::parse("null"), Ok(Json::Null));
    assert_eq!(Json::parse("true"), Ok(Json::Bool(true)));
    assert_eq!(Json::parse("42"), Ok(Json::PosInt(42)));
    assert_eq!(Json::parse("18446744073709551615"), Ok(Json::PosInt(u64::MAX)));
    assert_eq!(Json::parse("-7"), Ok(Json::NegInt(-7)));
    assert_eq!(Json::parse("1.5"), Ok(Json::Decimal("1.5".to_string())));
    assert_eq!(Json::parse("\"a\\nb\""), Ok(Json::Str("a\nb".to_string())));
    assert_eq!(
        Json::parse("[1, \"x\", []]"),
        Ok(Json::Array(vec![Json::PosInt(1), Json::Str("x".to_string()), Json::Array(vec![])]))
    );
    assert_eq!(
        Json::parse(" {\"b\": {\"c\": false}, \"a\": 1} "),
        Ok(object(vec![("a", Json::PosInt(1)), ("b", object(vec![("c", Json::Bool(false))]))]))
    );
}

#[test]
fn parse_reports_why_a_text_is_no_document() {
    let failed = Json::parse("{\"a\": }");
    assert!(matches!(failed, Err(ref message) if message.contains("line 1")));
    assert!(Json::parse("").is_err());
    assert!(Json::parse("nul").is_err());
}

#[test]
fn to_text_writes_compact_json() {
    assert_eq!(Json::Null.to_text(), "null");
    assert_eq!(Json::Bool(false).to_text(), "false");
    assert_eq!(Json::PosInt(7).to_text(), "7");
    assert_eq!(Json::NegInt(-7).to_text(), "-7");
    assert_eq!(Json::NegInt(7).to_text(), "7");
    assert_eq!(Json::Decimal("2.25".to_string()).to_text(), "2.25");
    assert_eq!(Json::Decimal("not a number".to_string()).to_text(), "null");
    assert_eq!(Json::string("a\"b").to_text(), "\"a\\\"b\"");
    assert_eq!(
        Json::object().with("b", Json::PosInt(2)).with("a", Json::array(vec![Json::Null])).to_text(),
        "{\"a\":[null],\"b\":2}"
    );
}

#[test]
fn text_and_document_go_back_and_forth() {
    let text = "{\"id\":1,\"list\":[1,-2,3.5,\"x\",null,true],\"nested\":{\"k\":\"v\"}}";
    let document = Json::parse(text).expect("a document");
    assert_eq!(document.to_text(), text);
    assert_eq!(Json::parse(&document.to_text()), Ok(document.copy()));
}

#[test]
fn get_finds_the_last_member_of_a_key() {
    let document = object(vec![
        ("a", Json::PosInt(1)),
        ("b", Json::PosInt(2)),
        ("a", Json::PosInt(3)),
    ]);
    assert_eq!(document.get("a"), Some(&Json::PosInt(3)));
    assert_eq!(document.get("b"), Some(&Json::PosInt(2)));
    assert_eq!(document.get("c"), None);
    assert_eq!(Json::PosInt(1).get("a"), None);
    assert_eq!(document.to_text(), "{\"a\":3,\"b\":2}");
}

#[test]
fn accessors_give_what_the_value_holds() {
    assert_eq!(Json::string("x").as_str(), Some("x"));
    assert_eq!(Json::PosInt(1).as_str(), None);
    assert_eq!(Json::PosInt(5).as_u64(), Some(5));
    assert_eq!(Json::NegInt(-5).as_u64(), None);
    assert_eq!(Json::NegInt(5).as_u64(), Some(5));
    assert_eq!(Json::Decimal("5.0".to_string()).as_u64(), None);
    assert_eq!(Json::PosInt(5).as_i64(), Some(5));
    assert_eq!(Json::PosInt(9223372036854775807).as_i64(), Some(i64::MAX));
    assert_eq!(Json::PosInt(9223372036854775808).as_i64(), None);
    assert_eq!(Json::NegInt(i64::MIN).as_i64(), Some(i64::MIN));
    assert_eq!(Json::string("5").as_i64(), None);
    assert_eq!(Json::array(vec![Json::Null]).as_array(), Some(&vec![Json::Null]));
    assert_eq!(Json::Null.as_array(), None);
}

#[test]
fn builders_build_what_they_say() {
    assert_eq!(Json::object(), Json::Object(vec![]));
    assert_eq!(
        Json::object().with("k", Json::Null),
        object(vec![("k", Json::Null)])
    );
    assert_eq!(Json::PosInt(1).with("k", Json::Null), Json::PosInt(1));
    assert_eq!(
        Json::strings(&vec!["a".to_string(), "b".to_string()]),
        Json::Array(vec![Json::Str("a".to_string()), Json::Str("b".to_string())])
    );
    let nested = object(vec![("list", Json::Array(vec![Json::Decimal("0.5".to_string())]))]);
    assert_eq!(nested.copy(), nested);
}
