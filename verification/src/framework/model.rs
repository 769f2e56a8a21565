//! The mutation vocabulary that reducers emit for key-value storage, and
//! its JSON form.

use super::decimal::parse_i64;
use super::decimal::parse_u64;
use super::decimal::parsed_i64;
use super::decimal::parsed_u64;
use super::decimal::decimal_text;
use super::decimal::i128_text;
use super::hexcode::hex_encode;
use super::hexcode::hex_encoded;
use super::json::member_of;
use super::json::members_model;
use super::json::same_text;
use super::json::items_model;
use super::json::Json;
use super::json::JsonModel;
use super::json::JsonNumber;
use vstd::prelude::*;
use vstd::std_specs::convert::FromSpecImpl;
use vstd::std_specs::convert::IntoSpec;
use vstd::string::StringExecFns;

verus! {

/// The name of a member of a set, or of a field of a hash.
pub type Member = String;

/// The key of a value, a set or a hash in the store.
pub type Key = String;

/// A signed amount by which a score or a counter changes.
pub type Delta = i64;

/// The priority of a write: the later one wins.
pub type Timestamp = u64;

/// What a [`Value`] stands for.
pub enum ValueModel {
    String(Seq<char>),
    BigInt(i128),
    Cbor(Seq<u8>),
    Json(JsonModel),
}

/// A value that a command writes: text, a 128-bit signed integer, opaque
/// bytes, or free-form JSON.
#[derive(Debug, PartialEq, Eq)]
pub enum Value {
    String(String),
    BigInt(i128),
    Cbor(Vec<u8>),
    Json(Json),
}

impl View for Value {
    type V = ValueModel;

    open spec fn view(&self) -> ValueModel {
        match self {
            Value::String(text) => ValueModel::String(text@),
            Value::BigInt(n) => ValueModel::BigInt(*n),
            Value::Cbor(bytes) => ValueModel::Cbor(bytes@),
            Value::Json(json) => ValueModel::Json(json@),
        }
    }
}

impl Clone for Value {
    fn clone(&self) -> (v: Value)
        ensures
            v@ == self@,
    {
        match self {
            Value::String(text) => Value::String(text.clone()),
            Value::BigInt(n) => Value::BigInt(*n),
            Value::Cbor(bytes) => Value::Cbor(bytes.clone()),
            Value::Json(json) => Value::Json(json.clone()),
        }
    }
}

impl From<String> for Value {
    fn from(x: String) -> (v: Value) {
        Value::String(x)
    }
}

impl FromSpecImpl<String> for Value {
    open spec fn obeys_from_spec() -> bool {
        true
    }

    open spec fn from_spec(x: String) -> Value {
        Value::String(x)
    }
}

impl From<Vec<u8>> for Value {
    fn from(x: Vec<u8>) -> (v: Value) {
        Value::Cbor(x)
    }
}

impl FromSpecImpl<Vec<u8>> for Value {
    open spec fn obeys_from_spec() -> bool {
        true
    }

    open spec fn from_spec(x: Vec<u8>) -> Value {
        Value::Cbor(x)
    }
}

impl From<Json> for Value {
    fn from(x: Json) -> (v: Value) {
        Value::Json(x)
    }
}

impl FromSpecImpl<Json> for Value {
    open spec fn obeys_from_spec() -> bool {
        true
    }

    open spec fn from_spec(x: Json) -> Value {
        Value::Json(x)
    }
}

/// What a [`CRDTCommand`] stands for.
pub enum CommandModel {
    SetAdd(Seq<char>, Seq<char>),
    SetRemove(Seq<char>, Seq<char>),
    SortedSetAdd(Seq<char>, Seq<char>, i64),
    SortedSetRemove(Seq<char>, Seq<char>, i64),
    TwoPhaseSetAdd(Seq<char>, Seq<char>),
    TwoPhaseSetRemove(Seq<char>, Seq<char>),
    GrowOnlySetAdd(Seq<char>, Seq<char>),
    LastWriteWins(Seq<char>, ValueModel, u64),
    AnyWriteWins(Seq<char>, ValueModel),
    PNCounter(Seq<char>, i64),
    HashCounter(Seq<char>, Seq<char>, i64),
    HashSetValue(Seq<char>, Seq<char>, ValueModel),
    HashUnsetKey(Seq<char>, Seq<char>),
}

/// A storage-independent mutation.
#[derive(Debug, PartialEq, Eq)]
#[non_exhaustive]
pub enum CRDTCommand {
    SetAdd(Key, Member),
    SetRemove(Key, Member),
    SortedSetAdd(Key, Member, Delta),
    SortedSetRemove(Key, Member, Delta),
    TwoPhaseSetAdd(Key, Member),
    TwoPhaseSetRemove(Key, Member),
    GrowOnlySetAdd(Key, Member),
    LastWriteWins(Key, Value, Timestamp),
    AnyWriteWins(Key, Value),
    PNCounter(Key, Delta),
    HashCounter(Key, Member, Delta),
    HashSetValue(Key, Member, Value),
    HashUnsetKey(Key, Member),
}

impl View for CRDTCommand {
    type V = CommandModel;

    open spec fn view(&self) -> CommandModel {
        match self {
            CRDTCommand::SetAdd(k, m) => CommandModel::SetAdd(k@, m@),
            CRDTCommand::SetRemove(k, m) => CommandModel::SetRemove(k@, m@),
            CRDTCommand::SortedSetAdd(k, m, d) => CommandModel::SortedSetAdd(k@, m@, *d),
            CRDTCommand::SortedSetRemove(k, m, d) => CommandModel::SortedSetRemove(k@, m@, *d),
            CRDTCommand::TwoPhaseSetAdd(k, m) => CommandModel::TwoPhaseSetAdd(k@, m@),
            CRDTCommand::TwoPhaseSetRemove(k, m) => CommandModel::TwoPhaseSetRemove(k@, m@),
            CRDTCommand::GrowOnlySetAdd(k, m) => CommandModel::GrowOnlySetAdd(k@, m@),
            CRDTCommand::LastWriteWins(k, v, t) => CommandModel::LastWriteWins(k@, v@, *t),
            CRDTCommand::AnyWriteWins(k, v) => CommandModel::AnyWriteWins(k@, v@),
            CRDTCommand::PNCounter(k, d) => CommandModel::PNCounter(k@, *d),
            CRDTCommand::HashCounter(k, m, d) => CommandModel::HashCounter(k@, m@, *d),
            CRDTCommand::HashSetValue(k, m, v) => CommandModel::HashSetValue(k@, m@, v@),
            CRDTCommand::HashUnsetKey(k, m) => CommandModel::HashUnsetKey(k@, m@),
        }
    }
}

impl Clone for CRDTCommand {
    fn clone(&self) -> (c: CRDTCommand)
        ensures
            c@ == self@,
    {
        match self {
            CRDTCommand::SetAdd(k, m) => CRDTCommand::SetAdd(k.clone(), m.clone()),
            CRDTCommand::SetRemove(k, m) => CRDTCommand::SetRemove(k.clone(), m.clone()),
            CRDTCommand::SortedSetAdd(k, m, d) => CRDTCommand::SortedSetAdd(
                k.clone(),
                m.clone(),
                *d,
            ),
            CRDTCommand::SortedSetRemove(k, m, d) => CRDTCommand::SortedSetRemove(
                k.clone(),
                m.clone(),
                *d,
            ),
            CRDTCommand::TwoPhaseSetAdd(k, m) => CRDTCommand::TwoPhaseSetAdd(k.clone(), m.clone()),
            CRDTCommand::TwoPhaseSetRemove(k, m) => CRDTCommand::TwoPhaseSetRemove(
                k.clone(),
                m.clone(),
            ),
            CRDTCommand::GrowOnlySetAdd(k, m) => CRDTCommand::GrowOnlySetAdd(k.clone(), m.clone()),
            CRDTCommand::LastWriteWins(k, v, t) => CRDTCommand::LastWriteWins(
                k.clone(),
                v.clone(),
                *t,
            ),
            CRDTCommand::AnyWriteWins(k, v) => CRDTCommand::AnyWriteWins(k.clone(), v.clone()),
            CRDTCommand::PNCounter(k, d) => CRDTCommand::PNCounter(k.clone(), *d),
            CRDTCommand::HashCounter(k, m, d) => CRDTCommand::HashCounter(
                k.clone(),
                m.clone(),
                *d,
            ),
            CRDTCommand::HashSetValue(k, m, v) => CRDTCommand::HashSetValue(
                k.clone(),
                m.clone(),
                v.clone(),
            ),
            CRDTCommand::HashUnsetKey(k, m) => CRDTCommand::HashUnsetKey(k.clone(), m.clone()),
        }
    }
}

/// What a list of commands stands for.
pub open spec fn commands_model(commands: Seq<CRDTCommand>) -> Seq<CommandModel> {
    commands.map_values(|c: CRDTCommand| c@)
}

/// A key under its prefix: the prefix, a dot, the key; the key alone where
/// there is no prefix.
pub open spec fn prefixed(prefix: Option<Seq<char>>, key: Seq<char>) -> Seq<char> {
    match prefix {
        Some(p) => p + seq!['.'] + key,
        None => key,
    }
}

/// The text of an optional string slice.
pub open spec fn prefix_model(prefix: Option<&str>) -> Option<Seq<char>> {
    match prefix {
        Some(p) => Some(p@),
        None => None,
    }
}

/// The key under its prefix, as a fresh string.
fn prefixed_key(prefix: Option<&str>, key: &str) -> (full: String)
    ensures
        full@ == prefixed(prefix_model(prefix), key@),
{
    match prefix {
        Some(p) => {
            let mut full = String::from_str(p);
            full.append(".");
            full.append(key);
            proof {
                reveal_strlit(".");
            }
            full
        },
        None => String::from_str(key),
    }
}

/// The message for a member that should be a string.
pub open spec fn expected_string(key: Seq<char>) -> Seq<char> {
    "Expected a string for key "@ + key
}

/// The message for a member that should be a signed amount.
pub open spec fn expected_delta(key: Seq<char>) -> Seq<char> {
    "Expected an integer or stringified integer delta for key "@ + key
}

/// The message for a string member that writes no integer.
pub open spec fn unparsed_integer(key: Seq<char>) -> Seq<char> {
    "Failed to parse stringified integer for key "@ + key
}

/// The message for a member that should be a timestamp.
pub open spec fn expected_timestamp(key: Seq<char>) -> Seq<char> {
    "Expected a timestamp for key "@ + key
}

/// The message for a member that is missing.
pub open spec fn expected_value(key: Seq<char>) -> Seq<char> {
    "Expected a value for key "@ + key
}

/// The text of the member `key`, which must be a JSON string.
pub open spec fn string_member(json: JsonModel, key: Seq<char>) -> Result<Seq<char>, Seq<char>> {
    match json.get(key) {
        Some(JsonModel::String(text)) => Ok(text),
        _ => Err(expected_string(key)),
    }
}

/// The signed integer of the member `key`: a JSON integer in range, or a
/// JSON string that strict parsing accepts.
pub open spec fn delta_member(json: JsonModel, key: Seq<char>) -> Result<i64, Seq<char>> {
    match json.get(key) {
        Some(JsonModel::Number(n)) => match n.spec_as_i64() {
            Some(d) => Ok(d),
            None => Err(expected_delta(key)),
        },
        Some(JsonModel::String(text)) => match parsed_i64(text) {
            Some(d) => Ok(d),
            None => Err(unparsed_integer(key)),
        },
        _ => Err(expected_delta(key)),
    }
}

/// The unsigned integer of the member `key`: a non-negative JSON integer, or
/// a JSON string that strict parsing accepts.
pub open spec fn timestamp_member(json: JsonModel, key: Seq<char>) -> Result<u64, Seq<char>> {
    match json.get(key) {
        Some(JsonModel::Number(n)) => match n.spec_as_u64() {
            Some(t) => Ok(t),
            None => Err(expected_timestamp(key)),
        },
        Some(JsonModel::String(text)) => match parsed_u64(text) {
            Some(t) => Ok(t),
            None => Err(unparsed_integer(key)),
        },
        _ => Err(expected_timestamp(key)),
    }
}

/// The member `key`, whatever JSON it is, as a JSON-tagged value.
pub open spec fn value_member(json: JsonModel, key: Seq<char>) -> Result<ValueModel, Seq<char>> {
    match json.get(key) {
        Some(v) => Ok(ValueModel::Json(v)),
        None => Err(expected_value(key)),
    }
}

/// A command of two names: the member `first` and the member `member`.
pub open spec fn pair_command(
    json: JsonModel,
    first: Seq<char>,
    build: spec_fn(Seq<char>, Seq<char>) -> CommandModel,
) -> Result<CommandModel, Seq<char>> {
    match string_member(json, first) {
        Err(e) => Err(e),
        Ok(key) => match string_member(json, "member"@) {
            Err(e) => Err(e),
            Ok(member) => Ok(build(key, member)),
        },
    }
}

/// A command of two names and a signed amount, the member `delta`.
pub open spec fn scored_command(
    json: JsonModel,
    first: Seq<char>,
    build: spec_fn(Seq<char>, Seq<char>, i64) -> CommandModel,
) -> Result<CommandModel, Seq<char>> {
    match string_member(json, first) {
        Err(e) => Err(e),
        Ok(key) => match string_member(json, "member"@) {
            Err(e) => Err(e),
            Ok(member) => match delta_member(json, "delta"@) {
                Err(e) => Err(e),
                Ok(delta) => Ok(build(key, member, delta)),
            },
        },
    }
}

/// The command that a JSON object with the discriminator `name` writes.
pub open spec fn named_command(name: Seq<char>, json: JsonModel) -> Result<
    CommandModel,
    Seq<char>,
> {
    if name == "SetAdd"@ {
        pair_command(json, "set"@, |k: Seq<char>, m: Seq<char>| CommandModel::SetAdd(k, m))
    } else if name == "SetRemove"@ {
        pair_command(json, "set"@, |k: Seq<char>, m: Seq<char>| CommandModel::SetRemove(k, m))
    } else if name == "SortedSetAdd"@ {
        scored_command(
            json,
            "set"@,
            |k: Seq<char>, m: Seq<char>, d: i64| CommandModel::SortedSetAdd(k, m, d),
        )
    } else if name == "SortedSetRemove"@ {
        scored_command(
            json,
            "set"@,
            |k: Seq<char>, m: Seq<char>, d: i64| CommandModel::SortedSetRemove(k, m, d),
        )
    } else if name == "TwoPhaseSetAdd"@ {
        pair_command(
            json,
            "set"@,
            |k: Seq<char>, m: Seq<char>| CommandModel::TwoPhaseSetAdd(k, m),
        )
    } else if name == "TwoPhaseSetRemove"@ {
        pair_command(
            json,
            "set"@,
            |k: Seq<char>, m: Seq<char>| CommandModel::TwoPhaseSetRemove(k, m),
        )
    } else if name == "GrowOnlySetAdd"@ {
        pair_command(
            json,
            "set"@,
            |k: Seq<char>, m: Seq<char>| CommandModel::GrowOnlySetAdd(k, m),
        )
    } else if name == "AnyWriteWins"@ {
        match string_member(json, "key"@) {
            Err(e) => Err(e),
            Ok(key) => match value_member(json, "value"@) {
                Err(e) => Err(e),
                Ok(value) => Ok(CommandModel::AnyWriteWins(key, value)),
            },
        }
    } else if name == "LastWriteWins"@ {
        match string_member(json, "key"@) {
            Err(e) => Err(e),
            Ok(key) => match value_member(json, "value"@) {
                Err(e) => Err(e),
                Ok(value) => match timestamp_member(json, "timestamp"@) {
                    Err(e) => Err(e),
                    Ok(ts) => Ok(CommandModel::LastWriteWins(key, value, ts)),
                },
            },
        }
    } else if name == "PNCounter"@ {
        match string_member(json, "key"@) {
            Err(e) => Err(e),
            Ok(key) => match delta_member(json, "delta"@) {
                Err(e) => Err(e),
                Ok(delta) => Ok(CommandModel::PNCounter(key, delta)),
            },
        }
    } else if name == "HashCounter"@ {
        scored_command(
            json,
            "key"@,
            |k: Seq<char>, m: Seq<char>, d: i64| CommandModel::HashCounter(k, m, d),
        )
    } else if name == "HashSetValue"@ {
        match string_member(json, "key"@) {
            Err(e) => Err(e),
            Ok(key) => match string_member(json, "member"@) {
                Err(e) => Err(e),
                Ok(member) => match value_member(json, "value"@) {
                    Err(e) => Err(e),
                    Ok(value) => Ok(CommandModel::HashSetValue(key, member, value)),
                },
            },
        }
    } else if name == "HashUnsetKey"@ {
        pair_command(json, "key"@, |k: Seq<char>, m: Seq<char>| CommandModel::HashUnsetKey(k, m))
    } else {
        Err("Unknown CRDTCommand"@)
    }
}

/// The command that a JSON value writes: an object whose member `command`
/// names the command and whose other members are its parameters. The first
/// parameter that is missing or of the wrong kind decides the error.
pub open spec fn command_of(json: JsonModel) -> Result<CommandModel, Seq<char>> {
    if !(json is Object) {
        Err("Expected a JSON object"@)
    } else {
        match json.get("command"@) {
            Some(JsonModel::String(name)) => named_command(name, json),
            _ => Err("Unknown CRDTCommand"@),
        }
    }
}

/// The commands that a list of JSON values writes, or the error of the first
/// value that writes none.
pub open spec fn all_commands(items: Seq<JsonModel>) -> Result<Seq<CommandModel>, Seq<char>>
    decreases items.len(),
{
    if items.len() == 0 {
        Ok(Seq::empty())
    } else {
        match all_commands(items.drop_last()) {
            Err(e) => Err(e),
            Ok(front) => match command_of(items.last()) {
                Err(e) => Err(e),
                Ok(c) => Ok(front.push(c)),
            },
        }
    }
}

/// The commands that a JSON array writes.
pub open spec fn commands_of(json: JsonModel) -> Result<Seq<CommandModel>, Seq<char>> {
    match json.as_array() {
        Some(items) => all_commands(items),
        None => Err("Expected a JSON array"@),
    }
}

/// The message `lead` followed by `key`.
fn message(lead: &str, key: &str) -> (text: String)
    ensures
        text@ == lead@ + key@,
{
    let mut text = String::from_str(lead);
    text.append(key);
    text
}

/// The text of the member `key` of a JSON object, or the message that says
/// what was expected there.
pub fn extract_string(obj: &Json, key: &str) -> (r: Result<String, String>)
    ensures
        match r {
            Ok(text) => string_member(obj@, key@) == Ok::<Seq<char>, Seq<char>>(text@),
            Err(text) => string_member(obj@, key@) == Err::<Seq<char>, Seq<char>>(text@),
        },
{
    match obj.get(key) {
        Some(Json::String(text)) => Ok(text.clone()),
        _ => Err(message("Expected a string for key ", key)),
    }
}

/// The signed amount of the member `key` of a JSON object, given as a
/// number or as a numeric string, or the message that says what was
/// expected there.
pub fn extract_delta(obj: &Json, key: &str) -> (r: Result<i64, String>)
    ensures
        match r {
            Ok(d) => delta_member(obj@, key@) == Ok::<i64, Seq<char>>(d),
            Err(text) => delta_member(obj@, key@) == Err::<i64, Seq<char>>(text@),
        },
{
    match obj.get(key) {
        Some(Json::Number(n)) => match n.as_i64() {
            Some(d) => Ok(d),
            None => Err(
                message("Expected an integer or stringified integer delta for key ", key),
            ),
        },
        Some(Json::String(text)) => match parse_i64(text.as_str()) {
            Some(d) => Ok(d),
            None => Err(message("Failed to parse stringified integer for key ", key)),
        },
        _ => Err(message("Expected an integer or stringified integer delta for key ", key)),
    }
}

/// The timestamp of the member `key` of a JSON object, given as a number
/// or as a numeric string, or the message that says what was expected
/// there.
pub fn extract_timestamp(obj: &Json, key: &str) -> (r: Result<u64, String>)
    ensures
        match r {
            Ok(t) => timestamp_member(obj@, key@) == Ok::<u64, Seq<char>>(t),
            Err(text) => timestamp_member(obj@, key@) == Err::<u64, Seq<char>>(text@),
        },
{
    match obj.get(key) {
        Some(Json::Number(n)) => match n.as_u64() {
            Some(t) => Ok(t),
            None => Err(message("Expected a timestamp for key ", key)),
        },
        Some(Json::String(text)) => match parse_u64(text.as_str()) {
            Some(t) => Ok(t),
            None => Err(message("Failed to parse stringified integer for key ", key)),
        },
        _ => Err(message("Expected a timestamp for key ", key)),
    }
}

/// The member `key` of a JSON object as a JSON-tagged value, or the message
/// that says that it is missing.
pub fn extract_value(obj: &Json, key: &str) -> (r: Result<Value, String>)
    ensures
        match r {
            Ok(v) => value_member(obj@, key@) == Ok::<ValueModel, Seq<char>>(v@),
            Err(text) => value_member(obj@, key@) == Err::<ValueModel, Seq<char>>(text@),
        },
{
    match obj.get(key) {
        Some(v) => Ok(Value::Json(v.clone())),
        None => Err(message("Expected a value for key ", key)),
    }
}

impl CRDTCommand {
    /// Adds `member` to the set at `key`, under `prefix` if one is given.
    pub fn set_add(prefix: Option<&str>, key: &str, member: String) -> (c: CRDTCommand)
        ensures
            c@ == CommandModel::SetAdd(prefixed(prefix_model(prefix), key@), member@),
    {
        CRDTCommand::SetAdd(prefixed_key(prefix, key), member)
    }

    /// Removes `member` from the set at `key`, under `prefix` if one is
    /// given.
    pub fn set_remove(prefix: Option<&str>, key: &str, member: String) -> (c: CRDTCommand)
        ensures
            c@ == CommandModel::SetRemove(prefixed(prefix_model(prefix), key@), member@),
    {
        CRDTCommand::SetRemove(prefixed_key(prefix, key), member)
    }

    /// Raises the score of `member` in the sorted set at `key` by `delta`.
    pub fn sorted_set_add(prefix: Option<&str>, key: &str, member: String, delta: i64) -> (c:
        CRDTCommand)
        ensures
            c@ == CommandModel::SortedSetAdd(
                prefixed(prefix_model(prefix), key@),
                member@,
                delta,
            ),
    {
        CRDTCommand::SortedSetAdd(prefixed_key(prefix, key), member, delta)
    }

    /// Changes the score of `member` in the sorted set at `key` by `delta`
    /// and lets members of score zero go.
    pub fn sorted_set_remove(prefix: Option<&str>, key: &str, member: String, delta: i64) -> (c:
        CRDTCommand)
        ensures
            c@ == CommandModel::SortedSetRemove(
                prefixed(prefix_model(prefix), key@),
                member@,
                delta,
            ),
    {
        CRDTCommand::SortedSetRemove(prefixed_key(prefix, key), member, delta)
    }

    /// Writes `value` at `key`, whatever is there.
    pub fn any_write_wins<V>(prefix: Option<&str>, key: &str, value: V) -> (c: CRDTCommand) where
        V: Into<Value>,

        ensures
            V::obeys_into_spec() ==> c@ == CommandModel::AnyWriteWins(
                prefixed(prefix_model(prefix), key@),
                value.into_spec()@,
            ),
    {
        CRDTCommand::AnyWriteWins(prefixed_key(prefix, key), value.into())
    }

    /// Writes `value` at `key` with the priority `ts`.
    pub fn last_write_wins<V>(prefix: Option<&str>, key: &str, value: V, ts: Timestamp) -> (c:
        CRDTCommand) where V: Into<Value>
        ensures
            V::obeys_into_spec() ==> c@ == CommandModel::LastWriteWins(
                prefixed(prefix_model(prefix), key@),
                value.into_spec()@,
                ts,
            ),
    {
        CRDTCommand::LastWriteWins(prefixed_key(prefix, key), value.into(), ts)
    }

    /// Assigns `value` to the field `member` of the hash at `key`.
    pub fn hash_set_value<V>(prefix: Option<&str>, key: &str, member: String, value: V) -> (c:
        CRDTCommand) where V: Into<Value>
        ensures
            V::obeys_into_spec() ==> c@ == CommandModel::HashSetValue(
                prefixed(prefix_model(prefix), key@),
                member@,
                value.into_spec()@,
            ),
    {
        CRDTCommand::HashSetValue(prefixed_key(prefix, key), member, value.into())
    }

    /// Removes the field `member` from the hash at `key`.
    pub fn hash_del_key(prefix: Option<&str>, key: &str, member: String) -> (c: CRDTCommand)
        ensures
            c@ == CommandModel::HashUnsetKey(prefixed(prefix_model(prefix), key@), member@),
    {
        CRDTCommand::HashUnsetKey(prefixed_key(prefix, key), member)
    }

    /// Raises the field `member` of the hash at `key` by `delta`.
    pub fn hash_counter(prefix: Option<&str>, key: &str, member: String, delta: i64) -> (c:
        CRDTCommand)
        ensures
            c@ == CommandModel::HashCounter(prefixed(prefix_model(prefix), key@), member@, delta),
    {
        CRDTCommand::HashCounter(prefixed_key(prefix, key), member, delta)
    }

    /// Reads one command from its JSON form.
    pub fn from_json(value: &Json) -> (r: Result<CRDTCommand, String>)
        ensures
            match r {
                Ok(c) => command_of(value@) == Ok::<CommandModel, Seq<char>>(c@),
                Err(text) => command_of(value@) == Err::<CommandModel, Seq<char>>(text@),
            },
    {
        match value {
            Json::Object(_) => {},
            _ => {
                return Err(String::from_str("Expected a JSON object"));
            },
        }
        let name = match value.get("command") {
            Some(Json::String(name)) => name.as_str(),
            _ => {
                return Err(String::from_str("Unknown CRDTCommand"));
            },
        };
        if same_text(name, "SetAdd") {
            let set = extract_string(value, "set")?;
            let member = extract_string(value, "member")?;
            Ok(CRDTCommand::SetAdd(set, member))
        } else if same_text(name, "SetRemove") {
            let set = extract_string(value, "set")?;
            let member = extract_string(value, "member")?;
            Ok(CRDTCommand::SetRemove(set, member))
        } else if same_text(name, "SortedSetAdd") {
            let set = extract_string(value, "set")?;
            let member = extract_string(value, "member")?;
            let delta = extract_delta(value, "delta")?;
            Ok(CRDTCommand::SortedSetAdd(set, member, delta))
        } else if same_text(name, "SortedSetRemove") {
            let set = extract_string(value, "set")?;
            let member = extract_string(value, "member")?;
            let delta = extract_delta(value, "delta")?;
            Ok(CRDTCommand::SortedSetRemove(set, member, delta))
        } else if same_text(name, "TwoPhaseSetAdd") {
            let set = extract_string(value, "set")?;
            let member = extract_string(value, "member")?;
            Ok(CRDTCommand::TwoPhaseSetAdd(set, member))
        } else if same_text(name, "TwoPhaseSetRemove") {
            let set = extract_string(value, "set")?;
            let member = extract_string(value, "member")?;
            Ok(CRDTCommand::TwoPhaseSetRemove(set, member))
        } else if same_text(name, "GrowOnlySetAdd") {
            let set = extract_string(value, "set")?;
            let member = extract_string(value, "member")?;
            Ok(CRDTCommand::GrowOnlySetAdd(set, member))
        } else if same_text(name, "AnyWriteWins") {
            let key = extract_string(value, "key")?;
            let written = extract_value(value, "value")?;
            Ok(CRDTCommand::AnyWriteWins(key, written))
        } else if same_text(name, "LastWriteWins") {
            let key = extract_string(value, "key")?;
            let written = extract_value(value, "value")?;
            let ts = extract_timestamp(value, "timestamp")?;
            Ok(CRDTCommand::LastWriteWins(key, written, ts))
        } else if same_text(name, "PNCounter") {
            let key = extract_string(value, "key")?;
            let delta = extract_delta(value, "delta")?;
            Ok(CRDTCommand::PNCounter(key, delta))
        } else if same_text(name, "HashCounter") {
            let key = extract_string(value, "key")?;
            let member = extract_string(value, "member")?;
            let delta = extract_delta(value, "delta")?;
            Ok(CRDTCommand::HashCounter(key, member, delta))
        } else if same_text(name, "HashSetValue") {
            let key = extract_string(value, "key")?;
            let member = extract_string(value, "member")?;
            let written = extract_value(value, "value")?;
            Ok(CRDTCommand::HashSetValue(key, member, written))
        } else if same_text(name, "HashUnsetKey") {
            let key = extract_string(value, "key")?;
            let member = extract_string(value, "member")?;
            Ok(CRDTCommand::HashUnsetKey(key, member))
        } else {
            Err(String::from_str("Unknown CRDTCommand"))
        }
    }

    /// Reads the commands of a JSON array, in order. The first element that
    /// is no command decides the error.
    pub fn from_json_array(value: &Json) -> (r: Result<Vec<CRDTCommand>, String>)
        ensures
            match r {
                Ok(commands) => commands_of(value@) == Ok::<Seq<CommandModel>, Seq<char>>(
                    commands_model(commands@),
                ),
                Err(text) => commands_of(value@) == Err::<Seq<CommandModel>, Seq<char>>(text@),
            },
    {
        let items = match value.as_array() {
            Some(items) => items,
            None => {
                return Err(String::from_str("Expected a JSON array"));
            },
        };
        let ghost all = items_model(items@);
        let mut commands: Vec<CRDTCommand> = Vec::new();
        let mut i: usize = 0;
        assert(commands_model(commands@) =~= Seq::<CommandModel>::empty());
        while i < items.len()
            invariant
                i <= items@.len(),
                all == items_model(items@),
                value@.as_array() == Some(all),
                all_commands(all.subrange(0, i as int)) == Ok::<Seq<CommandModel>, Seq<char>>(
                    commands_model(commands@),
                ),
            decreases items@.len() - i,
        {
            let ghost next = all.subrange(0, i + 1);
            let ghost read = commands_model(commands@);
            proof {
                assert(next.drop_last() =~= all.subrange(0, i as int));
            }
            match CRDTCommand::from_json(&items[i]) {
                Ok(c) => {
                    commands.push(c);
                    assert(commands_model(commands@) =~= read.push(c@));
                },
                Err(text) => {
                    proof {
                        lemma_first_failure(all, i as int);
                    }
                    return Err(text);
                },
            }
            i += 1;
        }
        assert(all.subrange(0, i as int) =~= all);
        Ok(commands)
    }
}

/// Where the commands before an element were read and the element is no
/// command, its error is the error of the whole list.
proof fn lemma_first_failure(items: Seq<JsonModel>, at: int)
    requires
        0 <= at < items.len(),
        all_commands(items.subrange(0, at)) is Ok,
        command_of(items[at]) is Err,
    ensures
        all_commands(items) == Err::<Seq<CommandModel>, Seq<char>>(command_of(items[at])->Err_0),
    decreases items.len() - at,
{
    let upto = items.subrange(0, at + 1);
    assert(upto.drop_last() =~= items.subrange(0, at));
    lemma_failure_stays(items, at + 1);
}

/// An error among the first elements of a list is the error of the list.
proof fn lemma_failure_stays(items: Seq<JsonModel>, upto: int)
    requires
        0 <= upto <= items.len(),
        all_commands(items.subrange(0, upto)) is Err,
    ensures
        all_commands(items) == all_commands(items.subrange(0, upto)),
    decreases items.len() - upto,
{
    if upto < items.len() {
        let next = items.subrange(0, upto + 1);
        assert(next.drop_last() =~= items.subrange(0, upto));
        lemma_failure_stays(items, upto + 1);
    } else {
        assert(items.subrange(0, upto) =~= items);
    }
}

/// The JSON form of a value: JSON as it is, text as a JSON string, an
/// integer as the JSON string of its decimal form, bytes as the JSON string
/// of their hexadecimal form.
pub open spec fn value_json(value: ValueModel) -> JsonModel {
    match value {
        ValueModel::Json(json) => json,
        ValueModel::String(text) => JsonModel::String(text),
        ValueModel::BigInt(n) => JsonModel::String(decimal_text(n as int)),
        ValueModel::Cbor(bytes) => JsonModel::String(hex_encoded(bytes)),
    }
}

/// The JSON number of a signed amount.
pub open spec fn delta_json(delta: i64) -> JsonModel {
    JsonModel::Number(JsonNumber::spec_from_i64(delta))
}

/// A JSON object that names a command, before its parameters.
pub open spec fn named(name: Seq<char>) -> Seq<(Seq<char>, JsonModel)> {
    seq![("command"@, JsonModel::String(name))]
}

/// The JSON form of a command: an object whose member `command` names it,
/// followed by its parameters under their names.
pub open spec fn json_of(command: CommandModel) -> JsonModel {
    JsonModel::Object(
        match command {
            CommandModel::SetAdd(k, m) => named("SetAdd"@).push(
                ("set"@, JsonModel::String(k)),
            ).push(("member"@, JsonModel::String(m))),
            CommandModel::SetRemove(k, m) => named("SetRemove"@).push(
                ("set"@, JsonModel::String(k)),
            ).push(("member"@, JsonModel::String(m))),
            CommandModel::SortedSetAdd(k, m, d) => named("SortedSetAdd"@).push(
                ("set"@, JsonModel::String(k)),
            ).push(("member"@, JsonModel::String(m))).push(("delta"@, delta_json(d))),
            CommandModel::SortedSetRemove(k, m, d) => named("SortedSetRemove"@).push(
                ("set"@, JsonModel::String(k)),
            ).push(("member"@, JsonModel::String(m))).push(("delta"@, delta_json(d))),
            CommandModel::TwoPhaseSetAdd(k, m) => named("TwoPhaseSetAdd"@).push(
                ("set"@, JsonModel::String(k)),
            ).push(("member"@, JsonModel::String(m))),
            CommandModel::TwoPhaseSetRemove(k, m) => named("TwoPhaseSetRemove"@).push(
                ("set"@, JsonModel::String(k)),
            ).push(("member"@, JsonModel::String(m))),
            CommandModel::GrowOnlySetAdd(k, m) => named("GrowOnlySetAdd"@).push(
                ("set"@, JsonModel::String(k)),
            ).push(("member"@, JsonModel::String(m))),
            CommandModel::LastWriteWins(k, v, t) => named("LastWriteWins"@).push(
                ("key"@, JsonModel::String(k)),
            ).push(("value"@, value_json(v))).push(
                ("timestamp"@, JsonModel::Number(JsonNumber::PosInt(t))),
            ),
            CommandModel::AnyWriteWins(k, v) => named("AnyWriteWins"@).push(
                ("key"@, JsonModel::String(k)),
            ).push(("value"@, value_json(v))),
            CommandModel::PNCounter(k, d) => named("PNCounter"@).push(
                ("key"@, JsonModel::String(k)),
            ).push(("delta"@, delta_json(d))),
            CommandModel::HashCounter(k, m, d) => named("HashCounter"@).push(
                ("key"@, JsonModel::String(k)),
            ).push(("member"@, JsonModel::String(m))).push(("delta"@, delta_json(d))),
            CommandModel::HashSetValue(k, m, v) => named("HashSetValue"@).push(
                ("key"@, JsonModel::String(k)),
            ).push(("member"@, JsonModel::String(m))).push(("value"@, value_json(v))),
            CommandModel::HashUnsetKey(k, m) => named("HashUnsetKey"@).push(
                ("key"@, JsonModel::String(k)),
            ).push(("member"@, JsonModel::String(m))),
        },
    )
}

impl CommandModel {
    /// The value that the command writes, if it writes one.
    pub open spec fn value(self) -> Option<ValueModel> {
        match self {
            CommandModel::LastWriteWins(_, v, _) => Some(v),
            CommandModel::AnyWriteWins(_, v) => Some(v),
            CommandModel::HashSetValue(_, _, v) => Some(v),
            _ => None,
        }
    }

    /// The command reads back from its JSON form as it is: it writes no
    /// value, or a JSON value.
    pub open spec fn reads_back(self) -> bool {
        match self.value() {
            Some(v) => v is Json,
            None => true,
        }
    }
}

/// The JSON form of a value.
fn value_to_json(value: &Value) -> (json: Json)
    ensures
        json@ == value_json(value@),
{
    match value {
        Value::Json(json) => json.clone(),
        Value::String(text) => Json::String(text.clone()),
        Value::BigInt(n) => Json::String(i128_text(*n)),
        Value::Cbor(bytes) => Json::String(hex_encode(bytes)),
    }
}

/// A JSON string member.
fn text_member(name: &str, text: &String) -> (member: (String, Json))
    ensures
        member.0@ == name@,
        member.1@ == JsonModel::String(text@),
{
    (String::from_str(name), Json::String(text.clone()))
}

/// A JSON number member for a signed amount.
fn delta_entry(name: &str, delta: i64) -> (member: (String, Json))
    ensures
        member.0@ == name@,
        member.1@ == delta_json(delta),
{
    (String::from_str(name), Json::Number(JsonNumber::from_i64(delta)))
}

/// A member that holds the JSON form of a value.
fn value_entry(name: &str, value: &Value) -> (member: (String, Json))
    ensures
        member.0@ == name@,
        member.1@ == value_json(value@),
{
    (String::from_str(name), value_to_json(value))
}

/// The members of a JSON object that names a command.
fn start_object(name: &str) -> (members: Vec<(String, Json)>)
    ensures
        members_model(members@) == named(name@),
{
    let mut members: Vec<(String, Json)> = Vec::new();
    members.push((String::from_str("command"), Json::String(String::from_str(name))));
    members
}

/// Appends a member to the members of a JSON object.
fn add_member(members: &mut Vec<(String, Json)>, member: (String, Json))
    ensures
        members_model(final(members)@) == members_model(old(members)@).push(
            (member.0@, member.1@),
        ),
{
    members.push(member);
    assert(members_model(members@) =~= members_model(old(members)@).push(
        (member.0@, member.1@),
    ));
}

impl CRDTCommand {
    /// Writes the command in its JSON form.
    pub fn to_json(&self) -> (json: Json)
        ensures
            json@ == json_of(self@),
    {
        let members = match self {
            CRDTCommand::SetAdd(k, m) => {
                let mut members = start_object("SetAdd");
                add_member(&mut members, text_member("set", k));
                add_member(&mut members, text_member("member", m));
                members
            },
            CRDTCommand::SetRemove(k, m) => {
                let mut members = start_object("SetRemove");
                add_member(&mut members, text_member("set", k));
                add_member(&mut members, text_member("member", m));
                members
            },
            CRDTCommand::SortedSetAdd(k, m, d) => {
                let mut members = start_object("SortedSetAdd");
                add_member(&mut members, text_member("set", k));
                add_member(&mut members, text_member("member", m));
                add_member(&mut members, delta_entry("delta", *d));
                members
            },
            CRDTCommand::SortedSetRemove(k, m, d) => {
                let mut members = start_object("SortedSetRemove");
                add_member(&mut members, text_member("set", k));
                add_member(&mut members, text_member("member", m));
                add_member(&mut members, delta_entry("delta", *d));
                members
            },
            CRDTCommand::TwoPhaseSetAdd(k, m) => {
                let mut members = start_object("TwoPhaseSetAdd");
                add_member(&mut members, text_member("set", k));
                add_member(&mut members, text_member("member", m));
                members
            },
            CRDTCommand::TwoPhaseSetRemove(k, m) => {
                let mut members = start_object("TwoPhaseSetRemove");
                add_member(&mut members, text_member("set", k));
                add_member(&mut members, text_member("member", m));
                members
            },
            CRDTCommand::GrowOnlySetAdd(k, m) => {
                let mut members = start_object("GrowOnlySetAdd");
                add_member(&mut members, text_member("set", k));
                add_member(&mut members, text_member("member", m));
                members
            },
            CRDTCommand::LastWriteWins(k, v, t) => {
                let mut members = start_object("LastWriteWins");
                add_member(&mut members, text_member("key", k));
                add_member(&mut members, value_entry("value", v));
                add_member(
                    &mut members,
                    (String::from_str("timestamp"), Json::Number(JsonNumber::PosInt(*t))),
                );
                members
            },
            CRDTCommand::AnyWriteWins(k, v) => {
                let mut members = start_object("AnyWriteWins");
                add_member(&mut members, text_member("key", k));
                add_member(&mut members, value_entry("value", v));
                members
            },
            CRDTCommand::PNCounter(k, d) => {
                let mut members = start_object("PNCounter");
                add_member(&mut members, text_member("key", k));
                add_member(&mut members, delta_entry("delta", *d));
                members
            },
            CRDTCommand::HashCounter(k, m, d) => {
                let mut members = start_object("HashCounter");
                add_member(&mut members, text_member("key", k));
                add_member(&mut members, text_member("member", m));
                add_member(&mut members, delta_entry("delta", *d));
                members
            },
            CRDTCommand::HashSetValue(k, m, v) => {
                let mut members = start_object("HashSetValue");
                add_member(&mut members, text_member("key", k));
                add_member(&mut members, text_member("member", m));
                add_member(&mut members, value_entry("value", v));
                members
            },
            CRDTCommand::HashUnsetKey(k, m) => {
                let mut members = start_object("HashUnsetKey");
                add_member(&mut members, text_member("key", k));
                add_member(&mut members, text_member("member", m));
                members
            },
        };
        let json = Json::Object(members);
        proof {
            json.lemma_view();
        }
        json
    }
}

/// What the member names and the command names hold.
proof fn lemma_names()
    ensures
        "command"@.len() == 7,
        "set"@.len() == 3,
        "member"@.len() == 6,
        "delta"@.len() == 5,
        "key"@.len() == 3,
        "value"@.len() == 5,
        "timestamp"@.len() == 9,
        "set"@[0] == 's',
        "key"@[0] == 'k',
        "delta"@[0] == 'd',
        "value"@[0] == 'v',
        "SetAdd"@.len() == 6,
        "SetRemove"@.len() == 9,
        "SortedSetAdd"@.len() == 12,
        "SortedSetRemove"@.len() == 15,
        "TwoPhaseSetAdd"@.len() == 14,
        "TwoPhaseSetRemove"@.len() == 17,
        "GrowOnlySetAdd"@.len() == 14,
        "AnyWriteWins"@.len() == 12,
        "LastWriteWins"@.len() == 13,
        "PNCounter"@.len() == 9,
        "HashCounter"@.len() == 11,
        "HashSetValue"@.len() == 12,
        "HashUnsetKey"@.len() == 12,
        "SetRemove"@[0] == 'S',
        "PNCounter"@[0] == 'P',
        "SortedSetAdd"@[0] == 'S',
        "AnyWriteWins"@[0] == 'A',
        "HashSetValue"@[0] == 'H',
        "HashUnsetKey"@[0] == 'H',
        "HashSetValue"@[4] == 'S',
        "HashUnsetKey"@[4] == 'U',
        "TwoPhaseSetAdd"@[0] == 'T',
        "GrowOnlySetAdd"@[0] == 'G',
{
    reveal_strlit("command");
    reveal_strlit("set");
    reveal_strlit("member");
    reveal_strlit("delta");
    reveal_strlit("key");
    reveal_strlit("value");
    reveal_strlit("timestamp");
    reveal_strlit("SetAdd");
    reveal_strlit("SetRemove");
    reveal_strlit("SortedSetAdd");
    reveal_strlit("SortedSetRemove");
    reveal_strlit("TwoPhaseSetAdd");
    reveal_strlit("TwoPhaseSetRemove");
    reveal_strlit("GrowOnlySetAdd");
    reveal_strlit("AnyWriteWins");
    reveal_strlit("LastWriteWins");
    reveal_strlit("PNCounter");
    reveal_strlit("HashCounter");
    reveal_strlit("HashSetValue");
    reveal_strlit("HashUnsetKey");
}

/// A command without a value, or with a JSON value, reads back from its
/// JSON form as it is.
pub proof fn lemma_json_round_trip(command: CommandModel)
    requires
        command.reads_back(),
    ensures
        command_of(json_of(command)) == Ok::<CommandModel, Seq<char>>(command),
{
    lemma_names();
    reveal_with_fuel(member_of, 5);
    let json = json_of(command);
    let members = json->Object_0;
    match command {
        CommandModel::SetAdd(k, m) => {
            lemma_pair(members, "set"@, k, m);
        },
        CommandModel::SetRemove(k, m) => {
            lemma_pair(members, "set"@, k, m);
        },
        CommandModel::SortedSetAdd(k, m, d) => {
            lemma_scored(members, "set"@, k, m, d);
        },
        CommandModel::SortedSetRemove(k, m, d) => {
            lemma_scored(members, "set"@, k, m, d);
        },
        CommandModel::TwoPhaseSetAdd(k, m) => {
            lemma_pair(members, "set"@, k, m);
        },
        CommandModel::TwoPhaseSetRemove(k, m) => {
            lemma_pair(members, "set"@, k, m);
        },
        CommandModel::GrowOnlySetAdd(k, m) => {
            lemma_pair(members, "set"@, k, m);
        },
        CommandModel::LastWriteWins(k, v, t) => {
            assert(members.drop_first().drop_first().drop_first()[0] == members[3]);
        },
        CommandModel::AnyWriteWins(k, v) => {
            assert(members.drop_first().drop_first()[0] == members[2]);
        },
        CommandModel::PNCounter(k, d) => {
            assert(members.drop_first().drop_first()[0] == members[2]);
        },
        CommandModel::HashCounter(k, m, d) => {
            lemma_scored(members, "key"@, k, m, d);
        },
        CommandModel::HashSetValue(k, m, v) => {
            assert(members.drop_first().drop_first().drop_first()[0] == members[3]);
        },
        CommandModel::HashUnsetKey(k, m) => {
            lemma_pair(members, "key"@, k, m);
        },
    }
}

/// The two names of an object written with them read back.
proof fn lemma_pair(
    members: Seq<(Seq<char>, JsonModel)>,
    first: Seq<char>,
    key: Seq<char>,
    member: Seq<char>,
)
    requires
        members.len() >= 3,
        members[0].0 == "command"@,
        members[1] == (first, JsonModel::String(key)),
        members[2] == ("member"@, JsonModel::String(member)),
        first == "set"@ || first == "key"@,
    ensures
        string_member(JsonModel::Object(members), first) == Ok::<Seq<char>, Seq<char>>(key),
        string_member(JsonModel::Object(members), "member"@) == Ok::<Seq<char>, Seq<char>>(
            member,
        ),
{
    lemma_names();
    reveal_with_fuel(member_of, 4);
}

/// The two names and the amount of an object written with them read back.
proof fn lemma_scored(
    members: Seq<(Seq<char>, JsonModel)>,
    first: Seq<char>,
    key: Seq<char>,
    member: Seq<char>,
    delta: i64,
)
    requires
        members.len() >= 4,
        members[0].0 == "command"@,
        members[1] == (first, JsonModel::String(key)),
        members[2] == ("member"@, JsonModel::String(member)),
        members[3] == ("delta"@, delta_json(delta)),
        first == "set"@ || first == "key"@,
    ensures
        string_member(JsonModel::Object(members), first) == Ok::<Seq<char>, Seq<char>>(key),
        string_member(JsonModel::Object(members), "member"@) == Ok::<Seq<char>, Seq<char>>(
            member,
        ),
        delta_member(JsonModel::Object(members), "delta"@) == Ok::<i64, Seq<char>>(delta),
{
    lemma_names();
    reveal_with_fuel(member_of, 5);
}

} // verus!
