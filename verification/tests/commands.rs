use lyra::framework::json::Json;
use lyra::framework::json::JsonNumber;
use lyra::framework::model::extract_delta;
use lyra::framework::model::extract_string;
use lyra::framework::model::extract_timestamp;
use lyra::framework::model::extract_value;
use lyra::framework::model::CRDTCommand;
use lyra::framework::model::Value;

fn text(s: &str) -> Json {
    Json::String(s.to_string())
}

fn num(n: i64) -> Json {
    Json::Number(JsonNumber::from_i64(n))
}

fn object(members: &[(&str, Json)]) -> Json {
    Json::Object(
        members
            .iter()
            .map(|(k, v)| (k.to_string(), v.clone()))
            .collect(),
    )
}

fn command(name: &str, members: &[(&str, Json)]) -> Json {
    let mut all = vec![("command", text(name))];
    all.extend(members.iter().map(|(k, v)| (*k, v.clone())));
    object(&all)
}

fn s(x: &str) -> String {
    x.to_string()
}

#[test]
fn sorted_set_add_with_a_stringified_delta() {
    let json = command(
        "SortedSetAdd",
        &[("set", text("s")), ("member", text("m")), ("delta", text("3"))],
    );
    assert_eq!(
        CRDTCommand::from_json(&json),
        Ok(CRDTCommand::SortedSetAdd(s("s"), s("m"), 3))
    );
}

#[test]
fn sorted_set_add_with_a_number_delta() {
    let json = command(
        "SortedSetAdd",
        &[("set", text("s")), ("member", text("m")), ("delta", num(-7))],
    );
    assert_eq!(
        CRDTCommand::from_json(&json),
        Ok(CRDTCommand::SortedSetAdd(s("s"), s("m"), -7))
    );
}

#[test]
fn every_command_reads_from_its_json_form() {
    let pair = [("set", text("k")), ("member", text("a"))];
    let scored = [("set", text("k")), ("member", text("a")), ("delta", num(2))];
    assert_eq!(
        CRDTCommand::from_json(&command("SetAdd", &pair)),
        Ok(CRDTCommand::SetAdd(s("k"), s("a")))
    );
    assert_eq!(
        CRDTCommand::from_json(&command("SetRemove", &pair)),
        Ok(CRDTCommand::SetRemove(s("k"), s("a")))
    );
    assert_eq!(
        CRDTCommand::from_json(&command("SortedSetAdd", &scored)),
        Ok(CRDTCommand::SortedSetAdd(s("k"), s("a"), 2))
    );
    assert_eq!(
        CRDTCommand::from_json(&command("SortedSetRemove", &scored)),
        Ok(CRDTCommand::SortedSetRemove(s("k"), s("a"), 2))
    );
    assert_eq!(
        CRDTCommand::from_json(&command("TwoPhaseSetAdd", &pair)),
        Ok(CRDTCommand::TwoPhaseSetAdd(s("k"), s("a")))
    );
    assert_eq!(
        CRDTCommand::from_json(&command("TwoPhaseSetRemove", &pair)),
        Ok(CRDTCommand::TwoPhaseSetRemove(s("k"), s("a")))
    );
    assert_eq!(
        CRDTCommand::from_json(&command("GrowOnlySetAdd", &pair)),
        Ok(CRDTCommand::GrowOnlySetAdd(s("k"), s("a")))
    );
    assert_eq!(
        CRDTCommand::from_json(&command(
            "LastWriteWins",
            &[("key", text("k")), ("value", num(9)), ("timestamp", num(44))]
        )),
        Ok(CRDTCommand::LastWriteWins(s("k"), Value::Json(num(9)), 44))
    );
    assert_eq!(
        CRDTCommand::from_json(&command(
            "AnyWriteWins",
            &[("key", text("k")), ("value", text("v"))]
        )),
        Ok(CRDTCommand::AnyWriteWins(s("k"), Value::Json(text("v"))))
    );
    assert_eq!(
        CRDTCommand::from_json(&command(
            "PNCounter",
            &[("key", text("k")), ("delta", num(-1))]
        )),
        Ok(CRDTCommand::PNCounter(s("k"), -1))
    );
    assert_eq!(
        CRDTCommand::from_json(&command(
            "HashCounter",
            &[("key", text("k")), ("member", text("f")), ("delta", text("-12"))]
        )),
        Ok(CRDTCommand::HashCounter(s("k"), s("f"), -12))
    );
    assert_eq!(
        CRDTCommand::from_json(&command(
            "HashSetValue",
            &[("key", text("k")), ("member", text("f")), ("value", Json::Null)]
        )),
        Ok(CRDTCommand::HashSetValue(s("k"), s("f"), Value::Json(Json::Null)))
    );
    assert_eq!(
        CRDTCommand::from_json(&command(
            "HashUnsetKey",
            &[("key", text("k")), ("member", text("f"))]
        )),
        Ok(CRDTCommand::HashUnsetKey(s("k"), s("f")))
    );
}

#[test]
fn from_json_wants_an_object() {
    assert_eq!(
        CRDTCommand::from_json(&text("SetAdd")),
        Err(s("Expected a JSON object"))
    );
    assert_eq!(
        CRDTCommand::from_json(&Json::Array(vec![])),
        Err(s("Expected a JSON object"))
    );
}

#[test]
fn from_json_wants_a_known_command() {
    assert_eq!(
        CRDTCommand::from_json(&object(&[("set", text("k"))])),
        Err(s("Unknown CRDTCommand"))
    );
    assert_eq!(
        CRDTCommand::from_json(&object(&[("command", num(1))])),
        Err(s("Unknown CRDTCommand"))
    );
    assert_eq!(
        CRDTCommand::from_json(&command("setadd", &[])),
        Err(s("Unknown CRDTCommand"))
    );
}

#[test]
fn from_json_names_the_first_bad_parameter() {
    assert_eq!(
        CRDTCommand::from_json(&command("SetAdd", &[("member", text("a"))])),
        Err(s("Expected a string for key set"))
    );
    assert_eq!(
        CRDTCommand::from_json(&command("SetAdd", &[("set", text("k")), ("member", num(1))])),
        Err(s("Expected a string for key member"))
    );
    assert_eq!(
        CRDTCommand::from_json(&command(
            "SortedSetAdd",
            &[("set", text("k")), ("member", text("a"))]
        )),
        Err(s("Expected an integer or stringified integer delta for key delta"))
    );
    assert_eq!(
        CRDTCommand::from_json(&command(
            "SortedSetAdd",
            &[("set", text("k")), ("member", text("a")), ("delta", text("3.0"))]
        )),
        Err(s("Failed to parse stringified integer for key delta"))
    );
    assert_eq!(
        CRDTCommand::from_json(&command("AnyWriteWins", &[("key", text("k"))])),
        Err(s("Expected a value for key value"))
    );
    assert_eq!(
        CRDTCommand::from_json(&command(
            "LastWriteWins",
            &[("key", text("k")), ("value", text("v")), ("timestamp", num(-1))]
        )),
        Err(s("Expected a timestamp for key timestamp"))
    );
}

#[test]
fn delta_is_parsed_strictly() {
    let with = |d: Json| object(&[("delta", d)]);
    assert_eq!(extract_delta(&with(text("42")), "delta"), Ok(42));
    assert_eq!(extract_delta(&with(text("+42")), "delta"), Ok(42));
    assert_eq!(extract_delta(&with(text("-42")), "delta"), Ok(-42));
    assert_eq!(extract_delta(&with(text("007")), "delta"), Ok(7));
    assert_eq!(
        extract_delta(&with(text("9223372036854775807")), "delta"),
        Ok(i64::MAX)
    );
    assert_eq!(
        extract_delta(&with(text("-9223372036854775808")), "delta"),
        Ok(i64::MIN)
    );
    for bad in ["", "+", "-", " 1", "1 ", "1_000", "0x10", "1.0", "9223372036854775808", "--1"] {
        assert_eq!(
            extract_delta(&with(text(bad)), "delta"),
            Err(s("Failed to parse stringified integer for key delta")),
            "{:?}",
            bad
        );
    }
    assert_eq!(
        extract_delta(&with(Json::Number(JsonNumber::PosInt(5))), "delta"),
        Ok(5)
    );
    assert_eq!(
        extract_delta(&with(Json::Number(JsonNumber::NegInt(-5))), "delta"),
        Ok(-5)
    );
    for bad in [
        Json::Number(JsonNumber::PosInt(u64::MAX)),
        Json::Number(JsonNumber::PosInt(1 << 63)),
        Json::Number(JsonNumber::Float(3.0f64.to_bits())),
        Json::Bool(true),
        Json::Null,
    ] {
        assert_eq!(
            extract_delta(&with(bad), "delta"),
            Err(s("Expected an integer or stringified integer delta for key delta"))
        );
    }
    assert_eq!(
        extract_delta(&with(num(1)), "other"),
        Err(s("Expected an integer or stringified integer delta for key other"))
    );
}

#[test]
fn timestamp_takes_numbers_and_numeric_strings() {
    let with = |d: Json| object(&[("timestamp", d)]);
    assert_eq!(
        extract_timestamp(&with(Json::Number(JsonNumber::PosInt(u64::MAX))), "timestamp"),
        Ok(u64::MAX)
    );
    assert_eq!(extract_timestamp(&with(text("17")), "timestamp"), Ok(17));
    assert_eq!(extract_timestamp(&with(text("+17")), "timestamp"), Ok(17));
    assert_eq!(
        extract_timestamp(&with(text("18446744073709551615")), "timestamp"),
        Ok(u64::MAX)
    );
    for bad in ["-0", "-1", "", "+", "18446744073709551616", "1e3"] {
        assert_eq!(
            extract_timestamp(&with(text(bad)), "timestamp"),
            Err(s("Failed to parse stringified integer for key timestamp")),
            "{:?}",
            bad
        );
    }
    assert_eq!(
        extract_timestamp(&with(Json::Number(JsonNumber::NegInt(-1))), "timestamp"),
        Err(s("Expected a timestamp for key timestamp"))
    );
    assert_eq!(
        extract_timestamp(&with(Json::Null), "timestamp"),
        Err(s("Expected a timestamp for key timestamp"))
    );
}

#[test]
fn string_and_value_members() {
    let obj = object(&[("a", text("x")), ("b", num(1)), ("a", text("second"))]);
    assert_eq!(extract_string(&obj, "a"), Ok(s("x")));
    assert_eq!(
        extract_string(&obj, "b"),
        Err(s("Expected a string for key b"))
    );
    assert_eq!(
        extract_string(&obj, "c"),
        Err(s("Expected a string for key c"))
    );
    assert_eq!(extract_value(&obj, "b"), Ok(Value::Json(num(1))));
    assert_eq!(
        extract_value(&obj, "c"),
        Err(s("Expected a value for key c"))
    );
    assert_eq!(
        extract_value(&text("no object"), "a"),
        Err(s("Expected a value for key a"))
    );
}

#[test]
fn from_json_array_reads_in_order() {
    let array = Json::Array(vec![
        command("SetAdd", &[("set", text("k")), ("member", text("a"))]),
        command("PNCounter", &[("key", text("c")), ("delta", text("5"))]),
    ]);
    assert_eq!(
        CRDTCommand::from_json_array(&array),
        Ok(vec![
            CRDTCommand::SetAdd(s("k"), s("a")),
            CRDTCommand::PNCounter(s("c"), 5)
        ])
    );
    assert_eq!(CRDTCommand::from_json_array(&Json::Array(vec![])), Ok(vec![]));
}

#[test]
fn from_json_array_fails_on_the_first_bad_element() {
    let array = Json::Array(vec![
        command("SetAdd", &[("set", text("k")), ("member", text("a"))]),
        command("SetAdd", &[("set", text("k"))]),
        text("not even an object"),
    ]);
    assert_eq!(
        CRDTCommand::from_json_array(&array),
        Err(s("Expected a string for key member"))
    );
    assert_eq!(
        CRDTCommand::from_json_array(&object(&[])),
        Err(s("Expected a JSON array"))
    );
    assert_eq!(
        CRDTCommand::from_json_array(&Json::Null),
        Err(s("Expected a JSON array"))
    );
}

#[test]
fn builders_put_the_prefix_before_the_key() {
    assert_eq!(
        CRDTCommand::set_add(Some("pre"), "k", s("m")),
        CRDTCommand::SetAdd(s("pre.k"), s("m"))
    );
    assert_eq!(
        CRDTCommand::set_add(None, "k", s("m")),
        CRDTCommand::SetAdd(s("k"), s("m"))
    );
    assert_eq!(
        CRDTCommand::set_remove(Some("pre"), "k", s("m")),
        CRDTCommand::SetRemove(s("pre.k"), s("m"))
    );
    assert_eq!(
        CRDTCommand::sorted_set_add(Some("a.b"), "k", s("m"), 4),
        CRDTCommand::SortedSetAdd(s("a.b.k"), s("m"), 4)
    );
    assert_eq!(
        CRDTCommand::sorted_set_remove(None, "k", s("m"), -4),
        CRDTCommand::SortedSetRemove(s("k"), s("m"), -4)
    );
    assert_eq!(
        CRDTCommand::any_write_wins(Some("p"), "k", s("v")),
        CRDTCommand::AnyWriteWins(s("p.k"), Value::String(s("v")))
    );
    assert_eq!(
        CRDTCommand::any_write_wins(None, "k", vec![1u8, 2]),
        CRDTCommand::AnyWriteWins(s("k"), Value::Cbor(vec![1, 2]))
    );
    assert_eq!(
        CRDTCommand::last_write_wins(Some("p"), "k", Json::Bool(true), 9),
        CRDTCommand::LastWriteWins(s("p.k"), Value::Json(Json::Bool(true)), 9)
    );
    assert_eq!(
        CRDTCommand::hash_set_value(Some("p"), "k", s("f"), Value::BigInt(-3)),
        CRDTCommand::HashSetValue(s("p.k"), s("f"), Value::BigInt(-3))
    );
    assert_eq!(
        CRDTCommand::hash_del_key(Some("p"), "k", s("f")),
        CRDTCommand::HashUnsetKey(s("p.k"), s("f"))
    );
    assert_eq!(
        CRDTCommand::hash_counter(Some(""), "k", s("f"), 1),
        CRDTCommand::HashCounter(s(".k"), s("f"), 1)
    );
}

fn all_commands_with_json_values() -> Vec<CRDTCommand> {
    let nested = Json::Object(vec![
        (s("a"), Json::Array(vec![num(1), Json::Null, text("x")])),
        (s("b"), Json::Number(JsonNumber::Float(1.5f64.to_bits()))),
    ]);
    vec![
        CRDTCommand::SetAdd(s("k"), s("m")),
        CRDTCommand::SetRemove(s("k"), s("m")),
        CRDTCommand::SortedSetAdd(s("k"), s("m"), i64::MAX),
        CRDTCommand::SortedSetRemove(s("k"), s("m"), i64::MIN),
        CRDTCommand::TwoPhaseSetAdd(s("k"), s("m")),
        CRDTCommand::TwoPhaseSetRemove(s("k"), s("m")),
        CRDTCommand::GrowOnlySetAdd(s(""), s("")),
        CRDTCommand::LastWriteWins(s("k"), Value::Json(nested.clone()), u64::MAX),
        CRDTCommand::AnyWriteWins(s("k"), Value::Json(Json::Null)),
        CRDTCommand::PNCounter(s("k"), 0),
        CRDTCommand::HashCounter(s("k"), s("f"), -1),
        CRDTCommand::HashSetValue(s("k"), s("f"), Value::Json(nested)),
        CRDTCommand::HashUnsetKey(s("k"), s("f")),
    ]
}

#[test]
fn commands_read_back_from_their_json_form() {
    for c in all_commands_with_json_values() {
        assert_eq!(CRDTCommand::from_json(&c.to_json()), Ok(c.clone()));
    }
}

#[test]
fn json_form_names_the_command_and_its_parameters() {
    assert_eq!(
        CRDTCommand::SortedSetAdd(s("s"), s("m"), 3).to_json(),
        Json::Object(vec![
            (s("command"), text("SortedSetAdd")),
            (s("set"), text("s")),
            (s("member"), text("m")),
            (s("delta"), Json::Number(JsonNumber::PosInt(3))),
        ])
    );
    assert_eq!(
        CRDTCommand::PNCounter(s("k"), -3).to_json(),
        Json::Object(vec![
            (s("command"), text("PNCounter")),
            (s("key"), text("k")),
            (s("delta"), Json::Number(JsonNumber::NegInt(-3))),
        ])
    );
    assert_eq!(
        CRDTCommand::AnyWriteWins(s("k"), Value::BigInt(-170141183460469231731687303715884105728))
            .to_json(),
        Json::Object(vec![
            (s("command"), text("AnyWriteWins")),
            (s("key"), text("k")),
            (s("value"), text("-170141183460469231731687303715884105728")),
        ])
    );
    assert_eq!(
        CRDTCommand::HashSetValue(s("k"), s("f"), Value::Cbor(vec![0xca, 0xfe])).to_json(),
        Json::Object(vec![
            (s("command"), text("HashSetValue")),
            (s("key"), text("k")),
            (s("member"), text("f")),
            (s("value"), text("cafe")),
        ])
    );
    assert_eq!(
        CRDTCommand::LastWriteWins(s("k"), Value::String(s("v")), 7).to_json(),
        Json::Object(vec![
            (s("command"), text("LastWriteWins")),
            (s("key"), text("k")),
            (s("value"), text("v")),
            (s("timestamp"), Json::Number(JsonNumber::PosInt(7))),
        ])
    );
}

#[test]
fn a_value_that_is_no_json_reads_back_as_json() {
    let c = CRDTCommand::AnyWriteWins(s("k"), Value::String(s("v")));
    assert_eq!(
        CRDTCommand::from_json(&c.to_json()),
        Ok(CRDTCommand::AnyWriteWins(s("k"), Value::Json(text("v"))))
    );
}

#[test]
fn values_come_from_text_bytes_and_json() {
    assert_eq!(Value::from(s("x")), Value::String(s("x")));
    assert_eq!(Value::from(vec![1u8]), Value::Cbor(vec![1]));
    assert_eq!(Value::from(Json::Null), Value::Json(Json::Null));
    assert_eq!(Value::BigInt(5).clone(), Value::BigInt(5));
}
