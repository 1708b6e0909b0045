use blindpay::json::{decimal_text, Json, Member, ObjectBuilder, ToJson};
use blindpay::BlindPayError;

fn member(name: &str, value: Json) -> Member {
    Member { name: name.to_string(), value }
}

#[test]
fn parse_reads_every_kind_of_value() {
    let doc = Json::parse("{\"a\": null, \"b\": true, \"c\": 12, \"d\": \"x\", \"e\": [1.5, -3], \"f\": {}}")
        .unwrap();
    assert_eq!(
        doc,
        Json::Object(vec![
            member("a", Json::Null),
            member("b", Json::Bool(true)),
            member("c", Json::Number("12".to_string())),
            member("d", Json::string("x")),
            member(
                "e",
                Json::Array(vec![Json::Number("1.5".to_string()), Json::Number("-3".to_string())])
            ),
            member("f", Json::Object(vec![])),
        ])
    );
}

#[test]
fn parse_does_not_hand_the_text_back() {
    assert_eq!(Json::parse("\"pix\""), Ok(Json::string("pix")));
    assert_ne!(Json::parse("\"pix\""), Ok(Json::string("\"pix\"")));
}

#[test]
fn parse_rejects_what_is_no_json() {
    assert!(matches!(Json::parse("not json"), Err(BlindPayError::SerializationError(_))));
    assert!(matches!(Json::parse("{\"a\": }"), Err(BlindPayError::SerializationError(_))));
    assert!(matches!(Json::parse("1 2"), Err(BlindPayError::SerializationError(_))));
}

#[test]
fn get_finds_the_first_field_of_a_name() {
    let doc = Json::Object(vec![
        member("a", Json::Bool(false)),
        member("b", Json::Null),
        member("a", Json::Bool(true)),
    ]);
    assert_eq!(doc.get("a"), Some(&Json::Bool(false)));
    assert_eq!(doc.get("b"), Some(&Json::Null));
    assert_eq!(doc.get("c"), None);
    assert_eq!(Json::string("a").get("a"), None);
    assert_eq!(Json::Array(vec![]).get("a"), None);
}

#[test]
fn with_field_adds_a_new_field_at_the_end() {
    let doc = Json::Object(vec![member("name", Json::string("n"))]);
    let tagged = doc.with_field("type", Json::string("pix"));
    assert_eq!(
        tagged,
        Json::Object(vec![member("name", Json::string("n")), member("type", Json::string("pix"))])
    );
    assert_eq!(tagged.get("type"), Some(&Json::string("pix")));
    assert_eq!(tagged.get("name"), Some(&Json::string("n")));
}

#[test]
fn with_field_replaces_a_field_where_it_stands() {
    let doc = Json::Object(vec![
        member("type", Json::string("old")),
        member("name", Json::string("n")),
    ]);
    let tagged = doc.with_field("type", Json::string("pix"));
    assert_eq!(
        tagged,
        Json::Object(vec![member("type", Json::string("pix")), member("name", Json::string("n"))])
    );
}

#[test]
fn into_field_gives_the_value() {
    let doc = Json::Object(vec![member("a", Json::Bool(false)), member("b", Json::string("x"))]);
    assert_eq!(doc.clone().into_field("b"), Some(Json::string("x")));
    assert_eq!(doc.into_field("c"), None);
    assert_eq!(Json::Null.into_field("a"), None);
}

#[test]
fn clone_is_equal() {
    let doc = Json::parse("{\"a\": [1, {\"b\": null}], \"c\": \"d\"}").unwrap();
    assert_eq!(doc.clone(), doc);
}

#[test]
fn decimal_of_numbers() {
    assert_eq!(decimal_text(0), "0");
    assert_eq!(decimal_text(7), "7");
    assert_eq!(decimal_text(10), "10");
    assert_eq!(decimal_text(5000), "5000");
    assert_eq!(decimal_text(1234567890), "1234567890");
    assert_eq!(decimal_text(u64::MAX), "18446744073709551615");
    assert_eq!(Json::unsigned(42), Json::Number("42".to_string()));
}

#[test]
fn builder_keeps_the_order() {
    let doc = ObjectBuilder::new().field("b", Json::Null).field("a", Json::Bool(true)).build();
    assert_eq!(doc, Json::Object(vec![member("b", Json::Null), member("a", Json::Bool(true))]));
    assert_eq!(ObjectBuilder::new().build(), Json::Object(vec![]));
}

#[test]
fn plain_values_have_a_json_form() {
    assert_eq!("a".to_string().to_json(), Json::string("a"));
    assert_eq!(true.to_json(), Json::Bool(true));
    assert_eq!(9u64.to_json(), Json::Number("9".to_string()));
    assert_eq!(None::<String>.to_json(), Json::Null);
    assert_eq!(Some("a".to_string()).to_json(), Json::string("a"));
    assert_eq!(
        vec!["a".to_string(), "b".to_string()].to_json(),
        Json::Array(vec![Json::string("a"), Json::string("b")])
    );
    assert_eq!(Json::array(vec![]), Json::Array(vec![]));
    assert_eq!(Json::object(vec![]), Json::Object(vec![]));
}

#[test]
fn with_field_on_null_makes_an_object() {
    assert_eq!(
        Json::Null.with_field("type", Json::string("pix")),
        Json::Object(vec![member("type", Json::string("pix"))])
    );
}
