//! JSON values of `serde_json`, seen as mathematical trees.
//!
//! [`Value`] and its object type are opaque to the verifier. What a value holds is named by
//! [`json_view`], what an object holds by [`members`], the compact text of a value by
//! [`json_text`], and what a text parses to by [`json_parse`]. Every contract on a value in this
//! crate is stated over these names.

use serde_json::Value;
use vstd::prelude::*;

verus! {

/// [`serde_json::Value`], declared as an opaque type.
#[verifier::external_type_specification]
#[verifier::external_body]
pub struct ExValue(serde_json::Value);

/// [`serde_json::Map`], the type of JSON objects, declared as an opaque type.
#[verifier::external_type_specification]
#[verifier::external_body]
#[verifier::reject_recursive_types(K)]
#[verifier::reject_recursive_types(V)]
pub struct ExObject<K, V>(serde_json::Map<K, V>);

/// [`serde_json::Error`], declared as an opaque type.
#[verifier::external_type_specification]
#[verifier::external_body]
pub struct ExSerializeError(serde_json::Error);

/// A JSON tree. Numbers are told apart as `serde_json` tells them apart: a non-negative integer,
/// a negative integer, and a floating-point number, which is given by its bits.
pub enum JsonView {
    Null,
    Bool(bool),
    Unsigned(u64),
    Negative(i64),
    Float(u64),
    Text(Seq<char>),
    Array(Seq<JsonView>),
    Object(Map<Seq<char>, JsonView>),
}

/// The JSON tree that `value` holds.
pub uninterp spec fn json_view(value: serde_json::Value) -> JsonView;

/// The members of the JSON object `object`, by key.
pub uninterp spec fn members(object: serde_json::Map<String, serde_json::Value>) -> Map<
    Seq<char>,
    JsonView,
>;

/// The compact JSON text of a tree, as [`serde_json::to_string`] writes it.
pub uninterp spec fn json_text(tree: JsonView) -> Seq<char>;

/// The tree that [`serde_json::from_str`] finds in a text, or nothing where it finds none.
pub uninterp spec fn json_parse(text: Seq<char>) -> Option<JsonView>;

/// How deep arrays and objects may be nested in a text that [`serde_json::from_str`] takes.
pub const NESTING_LIMIT: usize = 127;

/// `tree` holds no floating-point number, and its arrays and objects are nested at most `depth`
/// deep.
pub open spec fn exact_within(tree: JsonView, depth: nat) -> bool
    decreases depth,
{
    match tree {
        JsonView::Float(_) => false,
        JsonView::Array(items) => depth > 0 && forall|i: int|
            0 <= i < items.len() ==> exact_within(#[trigger] items[i], (depth - 1) as nat),
        JsonView::Object(fields) => depth > 0 && forall|key: Seq<char>| #[trigger]
            fields.contains_key(key) ==> exact_within(fields[key], (depth - 1) as nat),
        _ => true,
    }
}

/// `tree` survives being written and parsed. Floating-point numbers may not, since the parser
/// rounds them for speed, and deeper trees do not, since the parser refuses them.
pub open spec fn exact(tree: JsonView) -> bool {
    exact_within(tree, NESTING_LIMIT as nat)
}

/// The members of an object that has none.
pub open spec fn no_members() -> Map<Seq<char>, JsonView> {
    Map::empty()
}

/// [`serde_json::Map::new`] makes an object without members.
pub assume_specification[ serde_json::Map::<String, serde_json::Value>::new ]() -> (object:
    serde_json::Map<String, serde_json::Value>)
    ensures
        members(object) == no_members(),
;

/// [`serde_json::Map::insert`] sets one member, whether or not the key was there, leaves the other
/// members alone, and hands back the value that the key had, if it had one.
pub assume_specification[ serde_json::Map::<String, serde_json::Value>::insert ](
    object: &mut serde_json::Map<String, serde_json::Value>,
    k: String,
    v: serde_json::Value,
) -> (previous: Option<serde_json::Value>)
    ensures
        members(*final(object)) == members(*old(object)).insert(k@, json_view(v)),
        match previous {
            Some(p) => members(*old(object)).contains_key(k@) && json_view(p) == members(
                *old(object),
            )[k@],
            None => !members(*old(object)).contains_key(k@),
        },
;

/// [`serde_json::Value::as_object_mut`] lends out the object that an object value holds, so that
/// what is done to the object is done to the value; it gives nothing for any other value.
pub assume_specification[ serde_json::Value::as_object_mut ](value: &mut serde_json::Value) -> (object:
    Option<&mut serde_json::Map<String, serde_json::Value>>)
    ensures
        match object {
            Some(m) => {
                &&& json_view(*old(value)) == JsonView::Object(members(*m))
                &&& json_view(*final(value)) == JsonView::Object(members(*final(m)))
            },
            None => {
                &&& !(json_view(*old(value)) is Object)
                &&& *final(value) == *old(value)
            },
        },
;

/// `Value::from(())` is the JSON value `null`.
#[verifier::external_body]
pub(crate) fn null_value() -> (value: Value)
    ensures
        json_view(value) == JsonView::Null,
{
    Value::from(())
}

/// `Value::from(bool)` is the JSON boolean with that truth value.
#[verifier::external_body]
pub(crate) fn bool_value(truth: bool) -> (value: Value)
    ensures
        json_view(value) == JsonView::Bool(truth),
{
    Value::from(truth)
}

/// `Value::from(u64)` is the JSON integer with that value.
#[verifier::external_body]
pub(crate) fn number_value(number: u64) -> (value: Value)
    ensures
        json_view(value) == JsonView::Unsigned(number),
{
    Value::from(number)
}

/// `Value::from(&str)` is the JSON string with those characters.
#[verifier::external_body]
pub(crate) fn text_value(text: &str) -> (value: Value)
    ensures
        json_view(value) == JsonView::Text(text@),
{
    Value::from(text)
}

/// `Value::from(serde_json::Map)` is the JSON object with those members.
#[verifier::external_body]
pub(crate) fn object_value(object: serde_json::Map<String, Value>) -> (value: Value)
    ensures
        json_view(value) == JsonView::Object(members(object)),
{
    Value::from(object)
}

/// [`serde_json::to_string`] on a value: it succeeds, since a value's own serialisation never
/// fails and its keys are strings; the text is a function of the tree, since an object's members
/// are written in the order of their keys (as they are without `serde_json`'s `preserve_order`
/// feature) and numbers are of the three kinds of [`JsonView`] (as they are without its
/// `arbitrary_precision` feature; this crate turns neither on); the text holds no line feed, since
/// the compact form writes none between tokens and those inside strings are escaped; and it parses
/// back to the tree, where that is exact.
#[verifier::external_body]
pub(crate) fn value_text(value: &Value) -> (text: Result<String, serde_json::Error>)
    ensures
        text is Ok,
        text->Ok_0@ == json_text(json_view(*value)),
        !text->Ok_0@.contains('\n'),
        exact(json_view(*value)) ==> json_parse(text->Ok_0@) == Some(json_view(*value)),
{
    serde_json::to_string(value)
}

/// [`serde_json::from_str`], asked for a value: its result is what [`json_parse`] names.
#[verifier::external_body]
pub(crate) fn parse_value(text: &str) -> (value: Result<Value, serde_json::Error>)
    ensures
        value is Ok <==> json_parse(text@) is Some,
        value is Ok ==> json_view(value->Ok_0) == json_parse(text@)->0,
{
    serde_json::from_str(text)
}

/// Sets the member `key` of `object`.
pub(crate) fn put(object: &mut serde_json::Map<String, Value>, key: &str, value: Value)
    ensures
        members(*final(object)) == members(*old(object)).insert(key@, json_view(value)),
{
    let _ = object.insert(key.to_owned(), value);
}

} // verus!
