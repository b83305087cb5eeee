use plume_models::error::Error;
use plume_models::json::Json;

#[test]
fn json_is_read_one_level_deep() {
    assert_eq!(Json::read("null"), Ok(Json::Null));
    assert_eq!(Json::read(" true "), Ok(Json::Bool(true)));
    assert_eq!(Json::read("-1.5e3"), Ok(Json::Number));
    assert_eq!(Json::read("\"a\\n\\u00e9\""), Ok(Json::Text("a\n\u{e9}".to_owned())));
    assert_eq!(Json::read("[]"), Ok(Json::List(vec![])));
    assert_eq!(
        Json::read("[ [1, 2], {\"a\" : null} ]"),
        Ok(Json::List(vec!["[1,2]".to_owned(), "{\"a\":null}".to_owned()]))
    );
    let mut members = match Json::read("{\"b\": \"x\", \"a\": 1, \"b\": [ ]}") {
        Ok(Json::Object(members)) => members,
        other => panic!("{:?}", other),
    };
    members.sort();
    assert_eq!(
        members,
        vec![("a".to_owned(), "1".to_owned()), ("b".to_owned(), "[]".to_owned())]
    );
}

#[test]
fn what_is_no_json_is_not_read() {
    for text in ["", "nul", "{", "[1,]", "\"a", "1 2"] {
        assert_eq!(Json::read(text), Err(Error::SerDe));
    }
}

#[test]
fn parts_are_read_in_turn() {
    for number in ["1.7976931348623157e308", "5e-324", "123456789012345678901234567890"] {
        let text = format!("[{}]", number);
        match Json::read(&text) {
            Ok(Json::List(items)) => assert_eq!(Json::read(&items[0]), Ok(Json::Number)),
            other => panic!("{:?}", other),
        }
    }
}
