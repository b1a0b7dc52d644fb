//! JSON values, as `serde_json` holds them.
//!
//! A value's contents are a [`Json`] tree. The functions here read and change
//! one value at a time; what they do is stated over the trees.

use vstd::prelude::*;

verus! {

/// The contents of a JSON value. A number is told by how it is written.
pub enum Json {
    Null,
    Bool(bool),
    Number(Seq<char>),
    Text(Seq<char>),
    Array(Seq<Json>),
    Object(Map<Seq<char>, Json>),
}

/// A JSON value of `serde_json`.
#[verifier::external_type_specification]
#[verifier::external_body]
pub struct ExValue(serde_json::Value);

/// What a JSON value holds.
pub uninterp spec fn json(value: serde_json::Value) -> Json;

/// The value that a text reads as, or why it is not JSON.
pub uninterp spec fn parsed(text: Seq<char>) -> Result<Json, Seq<char>>;

/// A value as compact JSON text.
pub uninterp spec fn encoded(value: Json) -> Seq<char>;

/// The two strings that a text reads as when it is a JSON array of exactly two
/// strings, or why it is not.
pub uninterp spec fn string_pair(text: Seq<char>) -> Result<(Seq<char>, Seq<char>), Seq<char>>;

impl Json {
    /// The member `key`, when this is an object that has one.
    pub open spec fn member(self, key: Seq<char>) -> Option<Json> {
        match self {
            Json::Object(fields) => if fields.contains_key(key) {
                Some(fields[key])
            } else {
                None
            },
            _ => None,
        }
    }

    /// The text, when this is a string.
    pub open spec fn text(self) -> Option<Seq<char>> {
        match self {
            Json::Text(text) => Some(text),
            _ => None,
        }
    }

    /// The member `key`, when it is a string.
    pub open spec fn text_member(self, key: Seq<char>) -> Option<Seq<char>> {
        match self.member(key) {
            Some(value) => value.text(),
            None => None,
        }
    }

    /// This object with the member `key` set; any other value as it is.
    pub open spec fn with(self, key: Seq<char>, value: Json) -> Json {
        match self {
            Json::Object(fields) => Json::Object(fields.insert(key, value)),
            _ => self,
        }
    }

    /// The element `i`, when this is an array that has one.
    pub open spec fn item(self, i: int) -> Option<Json> {
        match self {
            Json::Array(items) => if 0 <= i < items.len() {
                Some(items[i])
            } else {
                None
            },
            _ => None,
        }
    }
}

/// Setting a member to what it is changes nothing.
pub proof fn lemma_with_same(value: Json, key: Seq<char>)
    ensures
        value.member(key) is Some ==> value.with(key, value.member(key)->0) == value,
{
    match value {
        Json::Object(fields) => {
            if fields.contains_key(key) {
                assert(fields.insert(key, fields[key]) =~= fields);
            }
        },
        _ => {},
    }
}

/// `serde_json::Value::is_object`: whether the value is an object.
#[verifier::external_body]
pub(crate) fn is_object(value: &serde_json::Value) -> (r: bool)
    ensures
        r == (json(*value) is Object),
{
    value.is_object()
}

/// `serde_json::Value::get` with a string: the member of that name, when the
/// value is an object that has it.
#[verifier::external_body]
pub(crate) fn get<'a>(value: &'a serde_json::Value, key: &str) -> (r: Option<&'a serde_json::Value>)
    ensures
        match r {
            Some(member) => json(*value).member(key@) == Some(json(*member)),
            None => json(*value).member(key@) is None,
        },
{
    value.get(key)
}

/// `serde_json::Value::get_mut` with a string: the member of that name, to be
/// changed in place; everything else in the value stays.
#[verifier::external_body]
pub(crate) fn get_mut<'a>(value: &'a mut serde_json::Value, key: &str) -> (r: Option<
    &'a mut serde_json::Value,
>)
    ensures
        match r {
            Some(member) => {
                &&& json(*old(value)).member(key@) == Some(json(*member))
                &&& json(*final(value)) == json(*old(value)).with(key@, json(*final(member)))
            },
            None => {
                &&& json(*old(value)).member(key@) is None
                &&& json(*final(value)) == json(*old(value))
            },
        },
{
    value.get_mut(key)
}

/// `serde_json::Value::get_mut` with an index: that element, to be changed in
/// place; everything else in the value stays.
#[verifier::external_body]
pub(crate) fn item_mut<'a>(value: &'a mut serde_json::Value, i: usize) -> (r: Option<
    &'a mut serde_json::Value,
>)
    ensures
        match r {
            Some(item) => {
                &&& json(*old(value)) matches Json::Array(items)
                &&& i < items.len()
                &&& json(*item) == items[i as int]
                &&& json(*final(value)) == Json::Array(items.update(i as int, json(*final(item))))
            },
            None => {
                &&& json(*old(value)).item(i as int) is None
                &&& json(*final(value)) == json(*old(value))
            },
        },
{
    value.get_mut(i)
}

/// `serde_json::Value::as_array`: how many elements the value has, when it is an
/// array; 0 when it is none.
#[verifier::external_body]
pub(crate) fn array_len(value: &serde_json::Value) -> (r: usize)
    ensures
        match json(*value) {
            Json::Array(items) => r == items.len(),
            _ => r == 0,
        },
{
    value.as_array().map_or(0, |items| items.len())
}

/// `serde_json::Map::insert` on the object a value holds: sets one member.
#[verifier::external_body]
pub(crate) fn insert(value: &mut serde_json::Value, key: &str, member: serde_json::Value)
    requires
        json(*old(value)) is Object,
    ensures
        json(*final(value)) == json(*old(value)).with(key@, json(member)),
{
    value.as_object_mut().unwrap().insert(key.to_string(), member);
}

/// `serde_json::Value::as_str`: the text, when the value is a string.
#[verifier::external_body]
pub(crate) fn as_str(value: &serde_json::Value) -> (r: Option<&str>)
    ensures
        match r {
            Some(text) => json(*value) == Json::Text(text@),
            None => !(json(*value) is Text),
        },
{
    value.as_str()
}

/// `serde_json::Value::as_bool`: the truth value, when the value is one.
#[verifier::external_body]
pub(crate) fn as_bool(value: &serde_json::Value) -> (r: Option<bool>)
    ensures
        match r {
            Some(b) => json(*value) == Json::Bool(b),
            None => !(json(*value) is Bool),
        },
{
    value.as_bool()
}

/// `serde_json::Value::String`: a string value.
#[verifier::external_body]
pub(crate) fn string(text: &str) -> (r: serde_json::Value)
    ensures
        json(r) == Json::Text(text@),
{
    serde_json::Value::String(text.to_string())
}

/// `serde_json::from_str` into a value: the value that the text reads as, or the
/// error's text when it is not JSON.
#[verifier::external_body]
pub(crate) fn parse(text: &str) -> (r: Result<serde_json::Value, String>)
    ensures
        match r {
            Ok(value) => parsed(text@) == Ok::<Json, Seq<char>>(json(value)),
            Err(error) => parsed(text@) == Err::<Json, Seq<char>>(error@),
        },
{
    serde_json::from_str(text).map_err(|error| error.to_string())
}

/// `serde_json::from_str` into a pair of strings: the pair that the text reads
/// as, or the error's text.
#[verifier::external_body]
pub(crate) fn parse_string_pair(text: &str) -> (r: Result<(String, String), String>)
    ensures
        match r {
            Ok(pair) => string_pair(text@) == Ok::<(Seq<char>, Seq<char>), Seq<char>>(
                (pair.0@, pair.1@),
            ),
            Err(error) => string_pair(text@) == Err::<(Seq<char>, Seq<char>), Seq<char>>(error@),
        },
{
    serde_json::from_str(text).map_err(|error| error.to_string())
}

/// `serde_json::to_string`: the value as compact JSON text. Serialising fails only
/// for a map with keys that are not strings or for a writer that fails, and a
/// value written to memory has neither.
#[verifier::external_body]
pub(crate) fn encode(value: &serde_json::Value) -> (r: Result<String, String>)
    ensures
        r is Ok,
        r->Ok_0@ == encoded(json(*value)),
{
    serde_json::to_string(value).map_err(|error| error.to_string())
}

/// The string member `key` of a value.
pub fn text_member<'a>(value: &'a serde_json::Value, key: &str) -> (r: Option<&'a str>)
    ensures
        match r {
            Some(text) => json(*value).text_member(key@) == Some(text@),
            None => json(*value).text_member(key@) is None,
        },
{
    match get(value, key) {
        Some(member) => as_str(member),
        None => None,
    }
}

} // verus!
