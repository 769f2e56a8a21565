use lyra::framework::json::Json;
use lyra::framework::json::JsonNumber;

fn sample() -> Json {
    Json::Object(vec![
        ("name".to_string(), Json::String("lyra".to_string())),
        ("tags".to_string(), Json::Array(vec![Json::Bool(true), Json::Null])),
        ("name".to_string(), Json::String("shadowed".to_string())),
        ("".to_string(), Json::Number(JsonNumber::PosInt(1))),
    ])
}

#[test]
fn get_finds_the_first_member_of_that_name() {
    let json = sample();
    assert_eq!(json.get("name"), Some(&Json::String("lyra".to_string())));
    assert_eq!(json.get(""), Some(&Json::Number(JsonNumber::PosInt(1))));
    assert_eq!(json.get("nam"), None);
    assert_eq!(json.get("names"), None);
    assert_eq!(Json::Array(vec![sample()]).get("name"), None);
    assert_eq!(Json::Null.get("name"), None);
}

#[test]
fn as_str_and_as_array_tell_the_kinds_apart() {
    let json = sample();
    assert_eq!(json.get("name").unwrap().as_str(), Some("lyra"));
    assert_eq!(json.get("tags").unwrap().as_str(), None);
    assert_eq!(
        json.get("tags").unwrap().as_array(),
        Some(&vec![Json::Bool(true), Json::Null])
    );
    assert_eq!(json.as_array(), None);
    assert_eq!(json.as_str(), None);
}

#[test]
fn numbers_as_integers() {
    assert_eq!(JsonNumber::PosInt(5).as_i64(), Some(5));
    assert_eq!(JsonNumber::PosInt(i64::MAX as u64).as_i64(), Some(i64::MAX));
    assert_eq!(JsonNumber::PosInt(i64::MAX as u64 + 1).as_i64(), None);
    assert_eq!(JsonNumber::NegInt(-5).as_i64(), Some(-5));
    assert_eq!(JsonNumber::Float(2.0f64.to_bits()).as_i64(), None);
    assert_eq!(JsonNumber::PosInt(u64::MAX).as_u64(), Some(u64::MAX));
    assert_eq!(JsonNumber::NegInt(-5).as_u64(), None);
    assert_eq!(JsonNumber::Float(2.0f64.to_bits()).as_u64(), None);
    assert_eq!(JsonNumber::from_i64(0), JsonNumber::PosInt(0));
    assert_eq!(JsonNumber::from_i64(-1), JsonNumber::NegInt(-1));
    assert_eq!(JsonNumber::from_i64(i64::MAX), JsonNumber::PosInt(i64::MAX as u64));
}

#[test]
fn a_clone_is_equal_in_depth() {
    let json = Json::Array(vec![sample(), Json::Array(vec![sample()])]);
    assert_eq!(json.clone(), json);
}
