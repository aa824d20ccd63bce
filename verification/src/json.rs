//! JSON values, built and printed with `serde_json`.
//!
//! Contracts speak of a value through the tree it stands for, [`json_tree`], and of a printed
//! value through [`json_compact`] and [`json_pretty`].

use serde_json::Value;
use vstd::prelude::*;

verus! {

/// A JSON tree, as contracts see it. The members of an object have no order: they are printed
/// by ascending name. `Float` holds the bits of a finite double.
pub enum Json {
    Null,
    Bool(bool),
    Unsigned(nat),
    Negative(int),
    Float(u64),
    Text(Seq<char>),
    Array(Seq<Json>),
    Object(Map<Seq<char>, Json>),
}

/// `serde_json::Value`, an opaque JSON value.
#[verifier::external_type_specification]
#[verifier::external_body]
pub struct ExValue(serde_json::Value);

/// `serde_json::Map`, the members of an opaque JSON object.
#[verifier::external_type_specification]
#[verifier::external_body]
#[verifier::reject_recursive_types(K)]
#[verifier::reject_recursive_types(V)]
pub struct ExMap<K, V>(serde_json::Map<K, V>);

/// `serde_json::Error`, the reason why a value was not printed.
#[verifier::external_type_specification]
#[verifier::external_body]
pub struct ExError(serde_json::Error);

/// The tree that a JSON value holds.
pub uninterp spec fn json_tree(value: serde_json::Value) -> Json;

/// The members that a JSON object holds, by name.
pub uninterp spec fn json_members(object: serde_json::Map<String, serde_json::Value>) -> Map<Seq<char>, Json>;

/// The text that `Value`'s `Display` gives a tree: JSON on one line.
pub uninterp spec fn json_compact(tree: Json) -> Seq<char>;

/// The text that `serde_json::to_string_pretty` gives a tree: JSON over several lines.
pub uninterp spec fn json_pretty(tree: Json) -> Seq<char>;

/// An object without members.
pub open spec fn no_members() -> Map<Seq<char>, Json> {
    Map::empty()
}

/// `serde_json::Map::new` gives an object without members.
pub assume_specification[ serde_json::Map::<String, serde_json::Value>::new ]() -> (object:
    serde_json::Map<String, serde_json::Value>)
    ensures
        json_members(object) == no_members(),
;

/// `serde_json::Map::insert` sets the member `k` to `v`, leaves the others as they are, and
/// hands back the value that `v` displaced, if there was one.
pub assume_specification[ serde_json::Map::<String, serde_json::Value>::insert ](
    object: &mut serde_json::Map<String, serde_json::Value>,
    k: String,
    v: serde_json::Value,
) -> (displaced: Option<serde_json::Value>)
    ensures
        json_members(*final(object)) == json_members(*old(object)).insert(k@, json_tree(v)),
        displaced is Some <==> json_members(*old(object)).dom().contains(k@),
        displaced is Some ==> json_tree(displaced->0) == json_members(*old(object))[k@],
;

/// `serde_json::Value::is_null` tells whether a value is `null`.
pub assume_specification[ serde_json::Value::is_null ](value: &serde_json::Value) -> (null: bool)
    ensures
        null == (json_tree(*value) is Null),
;

/// Cloning a `serde_json::Value` gives a value that holds the same tree.
pub assume_specification[ <serde_json::Value as Clone>::clone ](value: &serde_json::Value) -> (copy:
    serde_json::Value)
    ensures
        json_tree(copy) == json_tree(*value),
;

/// `serde_json::Value::Null` is the value `null`.
#[verifier::external_body]
pub(crate) fn null_value() -> (value: Value)
    ensures
        json_tree(value) == Json::Null,
{
    Value::Null
}

/// `serde_json::Value::Bool` makes a truth value.
#[verifier::external_body]
pub(crate) fn bool_value(truth: bool) -> (value: Value)
    ensures
        json_tree(value) == Json::Bool(truth),
{
    Value::Bool(truth)
}

/// `serde_json::Value::from` makes a number of a `u64`.
#[verifier::external_body]
pub(crate) fn unsigned_value(number: u64) -> (value: Value)
    ensures
        json_tree(value) == Json::Unsigned(number as nat),
{
    Value::from(number)
}

/// `serde_json::Value::String` makes a string.
#[verifier::external_body]
pub(crate) fn text_value(text: String) -> (value: Value)
    ensures
        json_tree(value) == Json::Text(text@),
{
    Value::String(text)
}

/// `serde_json::Value::Object` makes an object that has the given members.
#[verifier::external_body]
pub(crate) fn object_value(object: serde_json::Map<String, Value>) -> (value: Value)
    ensures
        json_tree(value) == Json::Object(json_members(object)),
{
    Value::Object(object)
}

/// `Value`'s `Display` prints a value on one line; what it prints depends on the value's tree
/// alone.
#[verifier::external_body]
pub(crate) fn compact_text(value: &Value) -> (text: String)
    ensures
        text@ == json_compact(json_tree(*value)),
{
    value.to_string()
}

/// `serde_json::to_string_pretty` prints a `Value` over several lines; what it prints depends on
/// the value's tree alone. It fails only where a `Serialize` impl does or where a map has keys
/// that are not strings, and a `Value` has neither.
#[verifier::external_body]
fn print_pretty(value: &Value) -> (text: Result<String, serde_json::Error>)
    ensures
        text is Ok,
        text->Ok_0@ == json_pretty(json_tree(*value)),
{
    serde_json::to_string_pretty(value)
}

/// A value printed over several lines.
pub fn pretty_text(value: &Value) -> (text: String)
    ensures
        text@ == json_pretty(json_tree(*value)),
{
    match print_pretty(value) {
        Ok(text) => text,
        Err(_) => String::new(),
    }
}

/// The tree of an optional text: a string, or `null`.
pub open spec fn optional_text(text: Option<Seq<char>>) -> Json {
    match text {
        Some(text) => Json::Text(text),
        None => Json::Null,
    }
}

/// A JSON string, or `null` where there is none.
pub fn json_null_or_string(opt: &Option<String>) -> (value: Value)
    ensures
        json_tree(value) == optional_text(crate::text::text_of(*opt)),
{
    match opt {
        Some(s) => text_value(s.clone()),
        None => null_value(),
    }
}

/// An optional text is told by its value: the text itself, or `null` exactly where there is none.
pub proof fn optional_texts_keep_their_value(text: Seq<char>)
    ensures
        optional_text(Some(text)) == Json::Text(text),
        optional_text(None) is Null,
        no_members().dom() == Set::<Seq<char>>::empty(),
{
}

} // verus!
