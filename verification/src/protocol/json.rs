//! JSON values as the control channel carries them.
//!
//! The values themselves are `serde_json`'s. Contracts speak of what a value
//! holds through [`json_of`] and [`members_of`], which give it as a [`Json`].

use vstd::prelude::*;

verus! {

/// What a JSON value holds.
pub enum Json {
    Null,
    Bool(bool),
    /// A number that is held as an integer of 64 bits, signed or unsigned.
    Integer(int),
    /// A number that is held as a double, by its bits: one with a fraction or
    /// an exponent, minus zero, or an integer that 64 bits do not hold.
    Float(u64),
    Text(Seq<char>),
    Array(Seq<Json>),
    Object(Map<Seq<char>, Json>),
}

impl Json {
    /// The member of an object under `key`; no other value has members.
    pub open spec fn member(self, key: Seq<char>) -> Option<Json> {
        match self {
            Json::Object(members) => if members.contains_key(key) {
                Some(members[key])
            } else {
                None
            },
            _ => None,
        }
    }

    /// The characters of a text.
    pub open spec fn text(self) -> Option<Seq<char>> {
        match self {
            Json::Text(chars) => Some(chars),
            _ => None,
        }
    }

    /// The value of an integer that a signed 64-bit number can hold.
    pub open spec fn signed(self) -> Option<i64> {
        match self {
            Json::Integer(n) => if i64::MIN <= n <= i64::MAX {
                Some(n as i64)
            } else {
                None
            },
            _ => None,
        }
    }

    /// The elements of an array.
    pub open spec fn elements(self) -> Option<Seq<Json>> {
        match self {
            Json::Array(elements) => Some(elements),
            _ => None,
        }
    }
}

/// Whether a value is an object that has `member` under `key`.
pub open spec fn holds(value: Json, key: Seq<char>, member: Json) -> bool {
    match value {
        Json::Object(members) => members.contains_key(key) && members[key] == member,
        _ => false,
    }
}

/// Whether a value has nothing under `key`, as no value has that is no object.
pub open spec fn lacks(value: Json, key: Seq<char>) -> bool {
    match value {
        Json::Object(members) => !members.contains_key(key),
        _ => true,
    }
}

/// `serde_json::Value`, carried as it is.
#[verifier::external_type_specification]
#[verifier::external_body]
pub struct ExValue(serde_json::Value);

/// `serde_json::Map`, carried as it is.
#[verifier::external_type_specification]
#[verifier::external_body]
#[verifier::reject_recursive_types(K)]
#[verifier::reject_recursive_types(V)]
pub struct ExMap<K, V>(serde_json::Map<K, V>);

/// `serde_json::Error`, carried as it is.
#[verifier::external_type_specification]
#[verifier::external_body]
pub struct ExError(serde_json::Error);

/// What a `serde_json::Value` holds.
pub uninterp spec fn json_of(value: serde_json::Value) -> Json;

/// What each of a sequence of values holds.
pub open spec fn jsons_of(values: Seq<serde_json::Value>) -> Seq<Json> {
    values.map_values(|value: serde_json::Value| json_of(value))
}

/// What a `serde_json::Map` holds, by key.
pub uninterp spec fn members_of(members: serde_json::Map<String, serde_json::Value>) -> Map<
    Seq<char>,
    Json,
>;

/// The members of the empty object.
pub open spec fn without_members() -> Map<Seq<char>, Json> {
    Map::empty()
}

/// The value that a JSON text in bytes stands for, if it is one.
pub uninterp spec fn parsed(text: Seq<u8>) -> Option<Json>;

/// The JSON text in bytes of a value.
pub uninterp spec fn rendered(value: Json) -> Seq<u8>;

/// A value without parts and without fraction.
pub open spec fn is_scalar(value: Json) -> bool {
    match value {
        Json::Null | Json::Bool(_) | Json::Text(_) => true,
        Json::Integer(n) => i64::MIN <= n <= u64::MAX,
        _ => false,
    }
}

/// A scalar, or an array of scalars.
pub open spec fn is_entry(value: Json) -> bool {
    match value {
        Json::Array(elements) => forall|i: int|
            0 <= i < elements.len() ==> is_scalar(#[trigger] elements[i]),
        _ => is_scalar(value),
    }
}

/// An object whose members are scalars and arrays of scalars, as the messages
/// of the control channel are.
pub open spec fn is_flat(value: Json) -> bool {
    match value {
        Json::Object(members) => forall|key: Seq<char>| #[trigger]
            members.contains_key(key) ==> is_entry(members[key]),
        _ => false,
    }
}

/// Calls `serde_json::from_slice` for a `serde_json::Value`. Claims that what
/// comes out is determined by the bytes. It counts the digits of a long number
/// in 32 bits without a check, so texts that are long enough to exceed that
/// are left out.
#[verifier::external_body]
pub(crate) fn from_slice(text: &[u8]) -> (value: Result<serde_json::Value, serde_json::Error>)
    requires
        text@.len() <= i32::MAX,
    ensures
        match parsed(text@) {
            Some(json) => value matches Ok(inner) && json_of(inner) == json,
            None => value is Err,
        },
{
    serde_json::from_slice(text)
}

/// Calls `serde_json::to_vec` on a `serde_json::Value`. Claims that it does not
/// fail, that the bytes are determined by what the value holds, that there is
/// at least one, and that reading the text of a flat value gives the value
/// back. Of other values that last claim is left open: a fraction may come back
/// changed in its last digit, and nesting beyond a depth of 127 is not read.
#[verifier::external_body]
pub(crate) fn to_vec(value: &serde_json::Value) -> (text: Result<Vec<u8>, serde_json::Error>)
    ensures
        match text {
            Ok(bytes) => bytes@ == rendered(json_of(*value)) && bytes@.len() > 0 && (is_flat(
                json_of(*value),
            ) ==> parsed(bytes@) == Some(json_of(*value))),
            Err(_) => false,
        },
{
    serde_json::to_vec(value)
}

/// Calls `serde_json::Value::get` with a text. Claims that it finds the member
/// of an object under that key, and nothing in any other value.
#[verifier::external_body]
pub(crate) fn get<'a>(value: &'a serde_json::Value, key: &str) -> (found: Option<
    &'a serde_json::Value,
>)
    ensures
        match json_of(*value).member(key@) {
            Some(json) => found matches Some(member) && json_of(*member) == json,
            None => found is None,
        },
{
    value.get(key)
}

/// Calls `serde_json::Value::as_str`. Claims that it gives the characters of a
/// text, and nothing for any other value.
#[verifier::external_body]
pub(crate) fn as_str(value: &serde_json::Value) -> (found: Option<&str>)
    ensures
        match json_of(*value).text() {
            Some(chars) => found matches Some(text) && text@ == chars,
            None => found is None,
        },
{
    value.as_str()
}

/// Calls `serde_json::Value::as_i64`. Claims that it gives the value of an
/// integer that fits, and nothing for any other value.
#[verifier::external_body]
pub(crate) fn as_i64(value: &serde_json::Value) -> (found: Option<i64>)
    ensures
        found == json_of(*value).signed(),
{
    value.as_i64()
}

/// Calls `serde_json::Value::as_array`. Claims that it gives the elements of
/// an array in order, and nothing for any other value.
#[verifier::external_body]
pub(crate) fn as_array(value: &serde_json::Value) -> (found: Option<&Vec<serde_json::Value>>)
    ensures
        match json_of(*value).elements() {
            Some(elements) => found matches Some(values) && jsons_of(values@) == elements,
            None => found is None,
        },
{
    value.as_array()
}

/// Calls `serde_json::Map::new`. Claims that the map is empty.
#[verifier::external_body]
pub(crate) fn no_members() -> (members: serde_json::Map<String, serde_json::Value>)
    ensures
        members_of(members) == without_members(),
{
    serde_json::Map::new()
}

/// Calls `serde_json::Map::insert`. Claims that the key then stands for the
/// value, that the other keys stand for what they did, and that the value that
/// was there is handed out.
#[verifier::external_body]
pub(crate) fn insert_member(
    members: &mut serde_json::Map<String, serde_json::Value>,
    key: String,
    value: serde_json::Value,
) -> (replaced: Option<serde_json::Value>)
    ensures
        members_of(*final(members)) == members_of(*old(members)).insert(key@, json_of(value)),
        match replaced {
            Some(earlier) => members_of(*old(members)).contains_key(key@) && json_of(earlier)
                == members_of(*old(members))[key@],
            None => !members_of(*old(members)).contains_key(key@),
        },
{
    members.insert(key, value)
}

/// Calls `serde_json::Map::remove`. Claims that the key is then absent, that
/// the other keys stand for what they did, and that the value that was there
/// is handed out.
#[verifier::external_body]
pub(crate) fn remove_member(
    members: &mut serde_json::Map<String, serde_json::Value>,
    key: &str,
) -> (removed: Option<serde_json::Value>)
    ensures
        members_of(*final(members)) == members_of(*old(members)).remove(key@),
        match removed {
            Some(earlier) => members_of(*old(members)).contains_key(key@) && json_of(earlier)
                == members_of(*old(members))[key@],
            None => !members_of(*old(members)).contains_key(key@),
        },
{
    members.remove(key)
}

/// Calls `serde_json::Map::get`. Claims that it finds what the key stands for.
#[verifier::external_body]
pub(crate) fn get_member<'a>(
    members: &'a serde_json::Map<String, serde_json::Value>,
    key: &str,
) -> (found: Option<&'a serde_json::Value>)
    ensures
        match found {
            Some(member) => members_of(*members).contains_key(key@) && json_of(*member)
                == members_of(*members)[key@],
            None => !members_of(*members).contains_key(key@),
        },
{
    members.get(key)
}

/// Calls `serde_json::Value::from` on a map. Claims that the value is an
/// object with its members.
#[verifier::external_body]
pub(crate) fn object(members: serde_json::Map<String, serde_json::Value>) -> (value:
    serde_json::Value)
    ensures
        json_of(value) == Json::Object(members_of(members)),
{
    serde_json::Value::from(members)
}

/// Calls `serde_json::Value::from` on a text. Claims that the value is that
/// text.
#[verifier::external_body]
pub(crate) fn text(chars: &str) -> (value: serde_json::Value)
    ensures
        json_of(value) == Json::Text(chars@),
{
    serde_json::Value::from(chars)
}

/// Calls `serde_json::Value::from` on an unsigned number. Claims that the
/// value is that integer.
#[verifier::external_body]
pub(crate) fn integer(n: u64) -> (value: serde_json::Value)
    ensures
        json_of(value) == Json::Integer(n as int),
{
    serde_json::Value::from(n)
}

/// Calls `serde_json::Value::from` on a truth value. Claims that the value is
/// that truth value.
#[verifier::external_body]
pub(crate) fn boolean(b: bool) -> (value: serde_json::Value)
    ensures
        json_of(value) == Json::Bool(b),
{
    serde_json::Value::from(b)
}

/// Calls `serde_json::Value::from` on a vector. Claims that the value is the
/// array of its elements.
#[verifier::external_body]
pub(crate) fn array(elements: Vec<serde_json::Value>) -> (value: serde_json::Value)
    ensures
        json_of(value) == Json::Array(jsons_of(elements@)),
{
    serde_json::Value::from(elements)
}

/// Calls `serde_json::Value::default`. Claims that the value is null.
#[verifier::external_body]
pub(crate) fn null() -> (value: serde_json::Value)
    ensures
        json_of(value) == Json::Null,
{
    serde_json::Value::default()
}

} // verus!
