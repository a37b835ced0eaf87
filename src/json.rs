//! The parts of serde_json that the configuration store relies on. A JSON
//! value stays opaque; what the store reads of it is named below.
use vstd::prelude::*;

verus! {

#[verifier::external_type_specification]
#[verifier::external_body]
pub struct ExValue(serde_json::Value);

/// The members of a JSON value, by key: those of an object, none for any
/// other value.
pub uninterp spec fn json_members(v: serde_json::Value) -> Map<Seq<char>, serde_json::Value>;

/// What `Value::is_object` returns.
pub uninterp spec fn json_is_object(v: serde_json::Value) -> bool;

/// What `Value::is_null` returns.
pub uninterp spec fn json_is_null(v: serde_json::Value) -> bool;

/// What `Value::as_bool` returns.
pub uninterp spec fn json_bool(v: serde_json::Value) -> Option<bool>;

/// The value `Value::Bool` makes of a boolean.
pub uninterp spec fn bool_json(b: bool) -> serde_json::Value;

/// What `serde_json::from_str` makes of a text, as a value; `None` where it
/// refuses the text.
pub uninterp spec fn parse_json(s: Seq<char>) -> Option<serde_json::Value>;

/// The text `serde_json::to_string_pretty` writes for a value.
pub uninterp spec fn pretty_json(v: serde_json::Value) -> Seq<char>;

/// Relies on `Value::is_object`: true exactly for an object; a value that is
/// not an object has no members.
pub assume_specification[ serde_json::Value::is_object ](v: &serde_json::Value) -> (r: bool)
    ensures
        r == json_is_object(*v),
        !r ==> json_members(*v).dom() == Set::<Seq<char>>::empty(),
;

/// Relies on `Value::is_null`: true exactly for `null`, which is not an object.
pub assume_specification[ serde_json::Value::is_null ](v: &serde_json::Value) -> (r: bool)
    ensures
        r == json_is_null(*v),
        r ==> !json_is_object(*v),
;

/// Relies on `Value::as_bool`: the boolean that a `Bool` value holds.
pub assume_specification[ serde_json::Value::as_bool ](v: &serde_json::Value) -> (r: Option<bool>)
    ensures
        r == json_bool(*v),
;

/// Relies on `Value::get` with a string key: the member under `key` of an
/// object, and nothing for a missing key or a value that is not an object.
#[verifier::external_body]
pub(crate) fn member(v: &serde_json::Value, key: &str) -> (r: Option<serde_json::Value>)
    ensures
        json_members(*v).contains_key(key@) ==> r == Some(json_members(*v)[key@]),
        !json_members(*v).contains_key(key@) ==> r is None,
{
    v.get(key).cloned()
}

/// Relies on `IndexMut<&str>` for `Value`: on an object it puts `x` under
/// `key`, keeping the other members; `null` is first turned into an empty
/// object. Any other value panics, so it is excluded. Putting a member's own
/// value back under its key leaves the object as it was.
#[verifier::external_body]
pub(crate) fn set_member(v: &mut serde_json::Value, key: &str, x: serde_json::Value)
    requires
        json_is_object(*old(v)) || json_is_null(*old(v)),
    ensures
        json_is_object(*final(v)),
        json_members(*final(v)) == json_members(*old(v)).insert(key@, x),
        json_is_object(*old(v)) && json_members(*old(v)).contains_key(key@) && json_members(
            *old(v),
        )[key@] == x ==> *final(v) == *old(v),
{
    v[key] = x;
}

/// Relies on `Value::Object(Map::new())`: an object with no members.
#[verifier::external_body]
pub(crate) fn empty_object() -> (r: serde_json::Value)
    ensures
        json_is_object(r),
        json_members(r).dom() == Set::<Seq<char>>::empty(),
{
    serde_json::Value::Object(serde_json::Map::new())
}

/// Relies on `Value::Bool`: a boolean value, which `as_bool` gives back.
#[verifier::external_body]
pub(crate) fn bool_value(b: bool) -> (r: serde_json::Value)
    ensures
        r == bool_json(b),
        json_bool(r) == Some(b),
        !json_is_object(r),
        !json_is_null(r),
{
    serde_json::Value::Bool(b)
}

/// Relies on `serde_json::from_str` into a `Value`; its error is dropped.
#[verifier::external_body]
pub(crate) fn parse(text: &str) -> (r: Option<serde_json::Value>)
    ensures
        r == parse_json(text@),
{
    serde_json::from_str::<serde_json::Value>(text).ok()
}

/// Relies on `serde_json::to_string_pretty`: the pretty-printed text of the
/// value. On a `Value` it does not fail: the only failures it documents are a
/// map with keys that are not strings and an error of the writer, and a
/// `Value` has string keys only and is written into a `Vec`.
#[verifier::external_body]
pub(crate) fn to_pretty(v: &serde_json::Value) -> (r: Option<String>)
    ensures
        r is Some,
        r matches Some(t) ==> t@ == pretty_json(*v),
{
    serde_json::to_string_pretty(v).ok()
}

} // verus!
