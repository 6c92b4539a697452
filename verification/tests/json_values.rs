use comfyui_openai_api::codec::{parse_bytes, parse_text, render};
use comfyui_openai_api::json::{Json, JsonObject};

fn json(text: &str) -> Json {
    parse_text(text).unwrap()
}

fn shown(value: &Json) -> String {
    String::from_utf8(render(value).unwrap()).unwrap()
}

#[test]
fn members_come_out_in_the_order_of_their_keys() {
    let object = JsonObject::new()
        .with("b", Json::Integer(2))
        .with("a", Json::Integer(1))
        .with("c", Json::Integer(3));
    assert_eq!(shown(&Json::Object(object)), r#"{"a":1,"b":2,"c":3}"#);
    assert_eq!(shown(&json(r#"{"z":1,"10":2,"9":3,"Z":4,"é":5}"#)), r#"{"10":2,"9":3,"Z":4,"z":1,"é":5}"#);
}

#[test]
fn setting_a_member_replaces_it_and_leaves_the_others() {
    let object = JsonObject::new()
        .with("a", Json::Integer(1))
        .with("b", Json::Bool(true))
        .with("a", Json::Text("new".to_string()));
    assert_eq!(object.len(), 2);
    assert_eq!(object.get("a"), Some(&Json::Text("new".to_string())));
    assert_eq!(object.get("b"), Some(&Json::Bool(true)));
    assert_eq!(object.get("c"), None);
}

#[test]
fn the_last_of_two_members_with_one_key_is_parsed() {
    assert_eq!(shown(&json(r#"{"a":1,"a":2}"#)), r#"{"a":2}"#);
}

#[test]
fn numbers_are_integers_where_they_fit() {
    assert_eq!(json("9223372036854775807").as_i64(), Some(i64::MAX));
    assert_eq!(json("-9223372036854775808").as_i64(), Some(i64::MIN));
    assert_eq!(json("9223372036854775808").as_i64(), None);
    assert_eq!(json("5.0").as_i64(), None);
    assert_eq!(json("\"5\"").as_i64(), None);
}

#[test]
fn other_numbers_come_out_as_they_went_in() {
    for text in ["9223372036854775808", "1.5", "-0.25", "1e300", "18446744073709551615"] {
        assert_eq!(shown(&json(text)), text.replace("1e300", "1e+300"));
    }
}

#[test]
fn every_kind_of_value_comes_out_as_it_went_in() {
    let text = r#"{"a":null,"b":[true,false,-7,2.5,"t\"\n",[],{}],"c":{"d":{"e":[1]}}}"#;
    assert_eq!(shown(&json(text)), text);
    assert_eq!(shown(&json(text).clone()), text);
}

#[test]
fn accessors_tell_the_kinds_apart() {
    let value = json(r#"{"t":"x","i":3,"n":null,"l":[1,2],"o":{"k":"v"}}"#);
    assert_eq!(value.text_at("t"), Some("x"));
    assert_eq!(value.text_at("i"), None);
    assert_eq!(value.integer_at("i"), Some(3));
    assert_eq!(value.integer_at("t"), None);
    assert!(value.get("n").unwrap().is_null());
    assert!(!value.get("t").unwrap().is_null());
    assert_eq!(value.get("l").unwrap().as_array().unwrap().len(), 2);
    assert!(value.get("l").unwrap().as_object().is_none());
    assert_eq!(value.get("o").unwrap().text_at("k"), Some("v"));
    assert!(value.get("missing").is_none());
    assert!(json("[1]").get("0").is_none());
    assert_eq!(json("\"s\"").as_str(), Some("s"));
    assert_eq!(json("1").as_str(), None);
}

#[test]
fn what_is_no_json_is_refused_with_the_reason() {
    assert_eq!(
        parse_bytes(b"").unwrap_err(),
        "EOF while parsing a value at line 1 column 0"
    );
    assert_eq!(
        parse_text("{").unwrap_err(),
        "EOF while parsing an object at line 1 column 1"
    );
    assert!(parse_bytes(&[0x22, 0xff, 0x22]).is_err());
    assert_eq!(parse_bytes(b" [1] ").unwrap(), json("[1]"));
}
