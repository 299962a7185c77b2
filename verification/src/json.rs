//! JSON values, built and written by `serde_json`.
//!
//! A `serde_json::Value` is opaque to the proofs. What it holds is a [`JsonTree`], and each
//! function below that hands a value to `serde_json` or takes one from it says what happens to the
//! tree.

use serde_json::Value;
use vstd::prelude::*;

verus! {

/// A JSON document.
pub enum JsonTree {
    Null,
    Bool(bool),
    /// An integer.
    Number(int),
    /// A number kept as floating point, told by the 64 bits that store it.
    Real(u64),
    Text(Seq<char>),
    List(Seq<JsonTree>),
    Object(Map<Seq<char>, JsonTree>),
}

/// An object without members.
pub open spec fn no_members() -> Map<Seq<char>, JsonTree> {
    Map::empty()
}

/// The trees of a list of values.
pub open spec fn json_trees(values: Seq<Value>) -> Seq<JsonTree> {
    values.map_values(|value: Value| json_tree(value))
}

/// The most bytes that the JSON text of a string can take: its quotes, and for each character either
/// its UTF-8 bytes, four at most, or an escape, of which the longest is `\u` with four digits.
pub open spec fn text_size(text: Seq<char>) -> nat {
    2 + 6 * text.len()
}

/// The most bytes that the JSON text of a document can take. An integer is one of 64 bits, with or
/// without a sign, which takes twenty characters at most, and a number kept as floating point takes
/// twenty-four.
pub open spec fn json_size(tree: JsonTree) -> nat
    decreases tree, 0nat,
{
    match tree {
        JsonTree::Null => 4,
        JsonTree::Bool(_) => 5,
        JsonTree::Number(_) => 20,
        JsonTree::Real(_) => 24,
        JsonTree::Text(text) => text_size(text),
        JsonTree::List(items) => 2 + items_size(items),
        JsonTree::Object(members) => 2 + members_size(members, members.dom()),
    }
}

/// The most bytes that the items of a list can take, with a comma for each.
pub open spec fn items_size(items: Seq<JsonTree>) -> nat
    decreases items, 0nat,
{
    if items.len() == 0 {
        0
    } else {
        items_size(items.drop_last()) + json_size(items.last()) + 1
    }
}

/// The most bytes that those members of an object can take that have one of the names `names`, with
/// a colon and a comma for each.
pub open spec fn members_size(members: Map<Seq<char>, JsonTree>, names: Set<Seq<char>>) -> nat
    decreases members, names.len(),
{
    if members.dom().finite() && names.subset_of(members.dom()) && names.finite() && names.len() > 0 {
        let name = names.choose();
        text_size(name) + json_size(members[name]) + 2 + members_size(members, names.remove(name))
    } else {
        0
    }
}

/// `serde_json::Value`, a JSON document in memory.
#[verifier::external_type_specification]
#[verifier::external_body]
pub struct ExValue(Value);

/// `serde_json::Map`, the members of a JSON object.
#[verifier::external_type_specification]
#[verifier::external_body]
#[verifier::reject_recursive_types(K)]
#[verifier::reject_recursive_types(V)]
pub struct ExMap<K, V>(serde_json::Map<K, V>);

/// `serde_json::Error`, why a document could not be written.
#[verifier::external_type_specification]
#[verifier::external_body]
pub struct ExError(serde_json::Error);

/// The document that a `serde_json::Value` holds.
pub uninterp spec fn json_tree(value: Value) -> JsonTree;

/// The members that a `serde_json::Map` holds, by name.
pub uninterp spec fn json_members(members: serde_json::Map<String, Value>) -> Map<Seq<char>, JsonTree>;

/// The compact JSON text of a document, in UTF-8, as `serde_json::to_vec` writes it.
pub uninterp spec fn json_text(tree: JsonTree) -> Seq<u8>;

/// `Value::from(bool)`: the boolean `flag`.
#[verifier::external_body]
pub(crate) fn bool_value(flag: bool) -> (value: Value)
    ensures
        json_tree(value) == JsonTree::Bool(flag),
{
    Value::from(flag)
}

/// `Value::from(u64)`: the integer `number`.
#[verifier::external_body]
pub(crate) fn number_value(number: u64) -> (value: Value)
    ensures
        json_tree(value) == JsonTree::Number(number as int),
{
    Value::from(number)
}

/// `Value::from(&str)`: a copy of `text`.
#[verifier::external_body]
pub(crate) fn text_value(text: &str) -> (value: Value)
    ensures
        json_tree(value) == JsonTree::Text(text@),
{
    Value::from(text)
}

/// `Value::from(Vec<Value>)`: the list of `items`, in order.
#[verifier::external_body]
pub(crate) fn list_value(items: Vec<Value>) -> (value: Value)
    ensures
        json_tree(value) == JsonTree::List(json_trees(items@)),
{
    Value::from(items)
}

/// `Value::from(Map<String, Value>)`: the object with these `members`.
#[verifier::external_body]
pub(crate) fn object_value(members: serde_json::Map<String, Value>) -> (value: Value)
    ensures
        json_tree(value) == JsonTree::Object(json_members(members)),
{
    Value::from(members)
}

/// Takes the members out of `Value::Object`, and tells any other value apart from an object.
#[verifier::external_body]
pub(crate) fn into_members(value: Value) -> (members: Option<serde_json::Map<String, Value>>)
    ensures
        members is Some <==> json_tree(value) is Object,
        members is Some ==> json_tree(value) == JsonTree::Object(json_members(members->0)),
{
    match value {
        Value::Object(members) => Some(members),
        _ => None,
    }
}

/// `Map::new`: no members.
#[verifier::external_body]
pub(crate) fn new_members() -> (members: serde_json::Map<String, Value>)
    ensures
        json_members(members) == no_members(),
{
    serde_json::Map::new()
}

/// `Map::insert`: adds the member `name`, or replaces the value that it had, which is returned.
#[verifier::external_body]
pub(crate) fn insert_member(
    members: &mut serde_json::Map<String, Value>,
    name: &str,
    value: Value,
) -> (replaced: Option<Value>)
    ensures
        json_members(*final(members)) == json_members(*old(members)).insert(name@, json_tree(value)),
        replaced is Some <==> json_members(*old(members)).contains_key(name@),
        replaced is Some ==> json_tree(replaced->0) == json_members(*old(members))[name@],
{
    members.insert(name.to_owned(), value)
}

/// `serde_json::to_vec` on a `Value`: the compact text of the document. A `Value` can always be
/// written, since the names of its members are strings. The text depends on the document alone,
/// because `serde_json::Map` is a `BTreeMap` and keeps its members in the order of their names.
/// That holds as long as no crate of the build turns on the feature `preserve_order`, and an integer
/// is one of 64 bits as long as none turns on `arbitrary_precision`. The text has no line feed: none
/// stands between its tokens, and inside a string one is written as an escape. For the same reasons
/// it is no longer than [`json_size`] counts.
#[verifier::external_body]
pub(crate) fn encode(value: &Value) -> (text: Result<Vec<u8>, serde_json::Error>)
    ensures
        text is Ok,
        text->Ok_0@ == json_text(json_tree(*value)),
        forall|i: int| 0 <= i < text->Ok_0@.len() ==> text->Ok_0@[i] != 10u8,
        text->Ok_0@.len() <= json_size(json_tree(*value)),
{
    serde_json::to_vec(value)
}

}
