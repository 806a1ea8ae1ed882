//! JSON documents, read through `serde_json`.

use vstd::prelude::*;

verus! {

/// A JSON value, as far as this library reads one: of a number it keeps
/// only that it is a number.
pub enum Json {
    Null,
    Bool(bool),
    Number,
    Text(Seq<char>),
    Array(Seq<Json>),
    Object(Map<Seq<char>, Json>),
}

impl Json {
    /// The members of an object; no other value has any.
    pub open spec fn members(self) -> Map<Seq<char>, Json> {
        match self {
            Json::Object(m) => m,
            _ => Map::empty(),
        }
    }

    /// Whether this is an object with a member of the given name.
    pub open spec fn has_member(self, name: Seq<char>) -> bool {
        self.members().dom().contains(name)
    }

    /// The member of the given name.
    pub open spec fn member(self, name: Seq<char>) -> Json
        recommends
            self.has_member(name),
    {
        self.members()[name]
    }
}

#[verifier::external_type_specification]
#[verifier::external_body]
pub struct ExValue(serde_json::Value);

#[verifier::external_type_specification]
#[verifier::external_body]
pub struct ExJsonError(serde_json::Error);

/// The JSON value that a `serde_json::Value` holds.
pub uninterp spec fn json_of_value(v: serde_json::Value) -> Json;

/// The value that `serde_json::from_str` reads from a text, where it reads one.
pub uninterp spec fn json_of_text(text: Seq<char>) -> Option<Json>;

/// `serde_json::from_str` at `serde_json::Value`.
#[verifier::external_body]
pub(crate) fn parse_json(text: &str) -> (r: Result<serde_json::Value, serde_json::Error>)
    ensures
        r is Ok <==> json_of_text(text@) is Some,
        r matches Ok(v) ==> Some(json_of_value(v)) == json_of_text(text@),
{
    serde_json::from_str::<serde_json::Value>(text)
}

pub assume_specification[ serde_json::Value::as_str ](v: &serde_json::Value) -> (r: Option<&str>)
    ensures
        r is Some <==> json_of_value(*v) is Text,
        r matches Some(s) ==> json_of_value(*v) == Json::Text(s@),
;

pub assume_specification[ serde_json::Value::is_null ](v: &serde_json::Value) -> (r: bool)
    ensures
        r <==> json_of_value(*v) is Null,
;

pub assume_specification[ serde_json::Value::as_array ](v: &serde_json::Value) -> (r: Option<&Vec<serde_json::Value>>)
    ensures
        r is Some <==> json_of_value(*v) is Array,
        r matches Some(items) ==> json_of_value(*v) == Json::Array(items@.map_values(|x: serde_json::Value| json_of_value(x))),
;

pub assume_specification[ serde_json::Value::is_object ](v: &serde_json::Value) -> (r: bool)
    ensures
        r <==> json_of_value(*v) is Object,
;

/// `serde_json::Value::get` with a string as the index: the member of that
/// name, where the value is an object that has one.
#[verifier::external_body]
pub(crate) fn member<'a>(v: &'a serde_json::Value, name: &str) -> (r: Option<&'a serde_json::Value>)
    ensures
        r is Some <==> json_of_value(*v).has_member(name@),
        r matches Some(x) ==> json_of_value(*x) == json_of_value(*v).member(name@),
{
    v.get(name)
}

/// `serde_json::Value::as_object` and, on the map that it returns,
/// `serde_json::Map::keys`: the names of an object's members, each once.
#[verifier::external_body]
pub(crate) fn member_names(v: &serde_json::Value) -> (r: Option<Vec<String>>)
    ensures
        r is Some <==> json_of_value(*v) is Object,
        r matches Some(names) ==> {
            let texts = names@.map_values(|s: String| s@);
            texts.no_duplicates() && texts.to_set() == json_of_value(*v).members().dom()
        },
{
    v.as_object().map(|m| m.keys().cloned().collect())
}

} // verus!
