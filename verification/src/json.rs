//! JSON values: the mathematical model used in contracts, and the operations
//! on `serde_json::Value` that the exporter builds its output with.
//!
//! A `serde_json::Value` is opaque to the verifier. What it holds is named by
//! [`json_of`]; each operation below is a thin call into `serde_json` whose
//! contract says, over that name, what the call does. Those contracts are
//! taken on trust; everything built on top of them is proved.

use vstd::prelude::*;

verus! {

/// Mathematical model of a JSON value.
///
/// An object is a map from keys to values: two objects with the same members
/// are the same object, in whatever order the members were inserted.
pub enum Json {
    Null,
    Bool(bool),
    /// A number, held as the decimal text that stands for it in a document.
    Number(Seq<char>),
    String(Seq<char>),
    Array(Seq<Json>),
    Object(Map<Seq<char>, Json>),
}

impl Json {
    /// Whether this value is an object with a member `key`.
    pub open spec fn has_member(self, key: Seq<char>) -> bool {
        self is Object && self->Object_0.dom().contains(key)
    }

    /// The member `key` of an object (arbitrary where [`Self::has_member`] is false).
    pub open spec fn member(self, key: Seq<char>) -> Json {
        self->Object_0[key]
    }

    /// Whether this value is an object whose member `key` is a string.
    pub open spec fn has_string_member(self, key: Seq<char>) -> bool {
        self.has_member(key) && self.member(key) is String
    }

    /// The text of the string member `key`
    /// (arbitrary where [`Self::has_string_member`] is false).
    pub open spec fn string_member(self, key: Seq<char>) -> Seq<char> {
        self.member(key)->String_0
    }
}

#[verifier::external_type_specification]
#[verifier::external_body]
pub struct ExValue(serde_json::Value);

#[verifier::external_type_specification]
#[verifier::external_body]
pub struct ExError(serde_json::Error);

/// The JSON value that a `serde_json::Value` holds.
pub uninterp spec fn json_of(v: serde_json::Value) -> Json;

/// The JSON values that a sequence of `serde_json::Value`s holds, in order.
pub open spec fn jsons_of(values: Seq<serde_json::Value>) -> Seq<Json> {
    values.map_values(|v: serde_json::Value| json_of(v))
}

/// The bytes of the pretty-printed document for a JSON value, as
/// `serde_json::to_vec_pretty` lays it out: members of an object in the order
/// of their keys, two spaces of indentation per level.
pub uninterp spec fn pretty_bytes(doc: Json) -> Seq<u8>;

/// `serde_json::Value::String`: the JSON string with the characters of `s`.
#[verifier::external_body]
pub(crate) fn json_string(s: &str) -> (v: serde_json::Value)
    ensures
        json_of(v) == Json::String(s@),
{
    serde_json::Value::String(s.to_owned())
}

/// `serde_json::Value::Bool`: the JSON boolean `b`.
#[verifier::external_body]
pub(crate) fn json_bool(b: bool) -> (v: serde_json::Value)
    ensures
        json_of(v) == Json::Bool(b),
{
    serde_json::Value::Bool(b)
}

/// `serde_json::Value::Array`: the JSON array of the given values, in order.
#[verifier::external_body]
pub(crate) fn json_array(items: Vec<serde_json::Value>) -> (v: serde_json::Value)
    ensures
        json_of(v) == Json::Array(jsons_of(items@)),
{
    serde_json::Value::Array(items)
}

/// `serde_json::Value::Object` over `serde_json::Map::new`: the JSON object
/// without members.
#[verifier::external_body]
pub(crate) fn json_object() -> (v: serde_json::Value)
    ensures
        json_of(v) == Json::Object(Map::empty()),
{
    serde_json::Value::Object(serde_json::Map::new())
}

/// `serde_json::Map::insert` on the map of an object: afterwards the object
/// has `value` under `key`, in place of what it had there before, and its
/// other members are unchanged.
#[verifier::external_body]
pub(crate) fn json_insert(object: &mut serde_json::Value, key: &str, value: serde_json::Value)
    requires
        json_of(*old(object)) is Object,
    ensures
        json_of(*final(object)) == Json::Object(
            json_of(*old(object))->Object_0.insert(key@, json_of(value)),
        ),
{
    if let serde_json::Value::Object(members) = object {
        members.insert(key.to_owned(), value);
    }
}

/// `serde_json::Value::get` with a string key: the member `key` where the
/// value is an object that has one, `None` otherwise.
#[verifier::external_body]
pub(crate) fn json_get<'a>(v: &'a serde_json::Value, key: &str) -> (member: Option<&'a serde_json::Value>)
    ensures
        member is Some <==> json_of(*v).has_member(key@),
        member matches Some(m) ==> json_of(*m) == json_of(*v).member(key@),
{
    v.get(key)
}

/// `serde_json::Value::as_str`: the text where the value is a string, `None`
/// otherwise.
#[verifier::external_body]
pub(crate) fn json_as_str<'a>(v: &'a serde_json::Value) -> (text: Option<&'a str>)
    ensures
        text is Some <==> json_of(*v) is String,
        text matches Some(t) ==> t@ == json_of(*v)->String_0,
{
    v.as_str()
}

/// `Clone` for `serde_json::Value`: the copy holds the same JSON value.
pub assume_specification[ <serde_json::Value as Clone>::clone ](v: &serde_json::Value) -> (copy:
    serde_json::Value)
    ensures
        json_of(copy) == json_of(*v),
;

/// `serde_json::to_vec_pretty` on a `serde_json::Value`: it succeeds, and
/// the bytes are the pretty-printed document of the value.
///
/// It succeeds because nothing in it can fail on such a value: the
/// serializer raises only the errors of its writer, which here is a byte
/// vector of its own; a `Value` raises none when it is serialized; and the
/// keys of its objects are strings.
#[verifier::external_body]
pub(crate) fn json_to_vec_pretty(v: &serde_json::Value) -> (rendered: Result<
    Vec<u8>,
    serde_json::Error,
>)
    ensures
        rendered is Ok,
        rendered matches Ok(bytes) ==> bytes@ == pretty_bytes(json_of(*v)),
{
    serde_json::to_vec_pretty(v)
}

} // verus!
