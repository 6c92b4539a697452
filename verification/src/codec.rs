//! The border to `serde_json`: its values, its parser and its writer.
use crate::json::{ascending, entries, trees, Json, JsonFraction, JsonObject, JsonTree};
use vstd::prelude::*;

verus! {

/// A JSON value of `serde_json`.
#[verifier::external_type_specification]
#[verifier::external_body]
pub struct ExValue(serde_json::Value);

/// What a `serde_json::Value` holds.
pub uninterp spec fn value_tree(value: serde_json::Value) -> JsonTree;

/// What `serde_json::from_slice` makes of these bytes as a `Value`: the value, or the message of
/// its error.
pub uninterp spec fn parsed_bytes(bytes: Seq<u8>) -> Result<JsonTree, Seq<char>>;

/// What `serde_json::from_str` makes of this text as a `Value`: the value, or the message of its
/// error.
pub uninterp spec fn parsed_text(text: Seq<char>) -> Result<JsonTree, Seq<char>>;

/// The bytes that `serde_json::to_vec` makes of a `Value` that holds this tree.
pub uninterp spec fn rendered(tree: JsonTree) -> Seq<u8>;

/// One level of a `serde_json::Value`.
pub enum ValueParts {
    Null,
    Bool(bool),
    Integer(i64),
    Fraction(serde_json::Value),
    Text(String),
    Array(Vec<serde_json::Value>),
    Object(Vec<(String, serde_json::Value)>),
}

/// The members as mathematical objects, in their order.
pub open spec fn value_entries(
    members: Seq<(String, serde_json::Value)>,
) -> Seq<(Seq<char>, JsonTree)> {
    Seq::new(members.len(), |i: int| (members[i].0@, value_tree(members[i].1)))
}

impl ValueParts {
    /// What the parts hold together.
    pub open spec fn tree(self) -> JsonTree {
        match self {
            ValueParts::Null => JsonTree::Null,
            ValueParts::Bool(b) => JsonTree::Bool(b),
            ValueParts::Integer(i) => JsonTree::Integer(i),
            ValueParts::Fraction(value) => value_tree(value),
            ValueParts::Text(text) => JsonTree::Text(text@),
            ValueParts::Array(items) => JsonTree::Array(
                Seq::new(items@.len(), |i: int| value_tree(items@[i])),
            ),
            ValueParts::Object(members) => JsonTree::Object(value_entries(members@)),
        }
    }

    /// The number that stands for itself is no `i64`, and the keys of an object ascend.
    pub open spec fn well_formed(self) -> bool {
        match self {
            ValueParts::Fraction(value) => value_tree(value) is Fraction,
            ValueParts::Object(members) => ascending(value_entries(members@)),
            _ => true,
        }
    }
}

/// `Clone::clone` of `serde_json::Value`: the copy holds what the value holds.
pub assume_specification[ <serde_json::Value as Clone>::clone ](
    value: &serde_json::Value,
) -> (copy: serde_json::Value)
    ensures
        value_tree(copy) == value_tree(*value),
;

/// The variants of `serde_json::Value`, told apart. `Number::as_i64` tells the integers that fit
/// an `i64` from the other numbers, and `Map::into_iter` hands the members of an object out in
/// ascending order of their keys, each key once.
#[verifier::external_body]
fn into_parts(value: serde_json::Value) -> (parts: ValueParts)
    ensures
        parts.tree() == value_tree(value),
        parts.well_formed(),
{
    match value {
        serde_json::Value::Null => ValueParts::Null,
        serde_json::Value::Bool(b) => ValueParts::Bool(b),
        serde_json::Value::Number(n) => match n.as_i64() {
            Some(i) => ValueParts::Integer(i),
            None => ValueParts::Fraction(serde_json::Value::Number(n)),
        },
        serde_json::Value::String(text) => ValueParts::Text(text),
        serde_json::Value::Array(items) => ValueParts::Array(items),
        serde_json::Value::Object(map) => ValueParts::Object(map.into_iter().collect()),
    }
}

/// The variants of `serde_json::Value`, put together: `Value::from` makes a number of an `i64`,
/// and `Map::from_iter` makes an object of members whose keys differ.
#[verifier::external_body]
fn from_parts(parts: ValueParts) -> (value: serde_json::Value)
    requires
        parts.well_formed(),
    ensures
        value_tree(value) == parts.tree(),
{
    match parts {
        ValueParts::Null => serde_json::Value::Null,
        ValueParts::Bool(b) => serde_json::Value::Bool(b),
        ValueParts::Integer(i) => serde_json::Value::from(i),
        ValueParts::Fraction(value) => value,
        ValueParts::Text(text) => serde_json::Value::String(text),
        ValueParts::Array(items) => serde_json::Value::Array(items),
        ValueParts::Object(members) => serde_json::Value::Object(members.into_iter().collect()),
    }
}

/// `serde_json::from_slice` into a `Value`: the outcome is a function of the bytes, which
/// `parsed_bytes` names.
#[verifier::external_body]
fn value_of_bytes(bytes: &[u8]) -> (outcome: Result<serde_json::Value, String>)
    ensures
        match outcome {
            Ok(value) => parsed_bytes(bytes@) == Ok::<JsonTree, Seq<char>>(value_tree(value)),
            Err(message) => parsed_bytes(bytes@) == Err::<JsonTree, Seq<char>>(message@),
        },
{
    serde_json::from_slice::<serde_json::Value>(bytes).map_err(|e| e.to_string())
}

/// `serde_json::from_str` into a `Value`: the outcome is a function of the text, which
/// `parsed_text` names.
#[verifier::external_body]
fn value_of_text(text: &str) -> (outcome: Result<serde_json::Value, String>)
    ensures
        match outcome {
            Ok(value) => parsed_text(text@) == Ok::<JsonTree, Seq<char>>(value_tree(value)),
            Err(message) => parsed_text(text@) == Err::<JsonTree, Seq<char>>(message@),
        },
{
    serde_json::from_str::<serde_json::Value>(text).map_err(|e| e.to_string())
}

/// `serde_json::to_vec` of a `Value`: it succeeds, since every key is a text, and the bytes are a
/// function of what the value holds, which `rendered` names.
#[verifier::external_body]
fn bytes_of_value(value: &serde_json::Value) -> (outcome: Result<Vec<u8>, String>)
    ensures
        outcome is Ok,
        outcome->Ok_0@ == rendered(value_tree(*value)),
{
    serde_json::to_vec(value).map_err(|e| e.to_string())
}

fn json_of_items(values: Vec<serde_json::Value>, Ghost(whole): Ghost<JsonTree>) -> (items: Vec<
    Json,
>)
    requires
        whole == ValueParts::Array(values).tree(),
    ensures
        trees(items@) == whole->Array_0,
    decreases whole, 0int,
{
    let mut items: Vec<Json> = Vec::new();
    for value in iter: values
        invariant
            iter.seq() == values@,
            items@.len() == iter.index(),
            whole == ValueParts::Array(values).tree(),
            forall|k: int| 0 <= k < items@.len() ==> items@[k].tree() == value_tree(values@[k]),
    {
        assert(whole->Array_0[iter.index()] == value_tree(value));
        items.push(json_of_value(value));
    }
    assert(trees(items@) =~= whole->Array_0);
    items
}

fn json_of_members(
    values: Vec<(String, serde_json::Value)>,
    Ghost(whole): Ghost<JsonTree>,
) -> (members: Vec<(String, Json)>)
    requires
        whole == ValueParts::Object(values).tree(),
    ensures
        entries(members@) == whole->Object_0,
    decreases whole, 0int,
{
    let mut members: Vec<(String, Json)> = Vec::new();
    for (key, value) in iter: values
        invariant
            iter.seq() == values@,
            members@.len() == iter.index(),
            whole == ValueParts::Object(values).tree(),
            forall|k: int|
                0 <= k < members@.len() ==> members@[k].0@ == values@[k].0@
                    && members@[k].1.tree() == value_tree(values@[k].1),
    {
        assert(whole->Object_0[iter.index()].1 == value_tree(value));
        members.push((key, json_of_value(value)));
    }
    assert(entries(members@) =~= whole->Object_0);
    members
}

/// The value as one of this library.
fn json_of_value(value: serde_json::Value) -> (json: Json)
    ensures
        json.tree() == value_tree(value),
    decreases value_tree(value), 1int,
{
    let ghost whole = value_tree(value);
    match into_parts(value) {
        ValueParts::Null => Json::Null,
        ValueParts::Bool(b) => Json::Bool(b),
        ValueParts::Integer(i) => Json::Integer(i),
        ValueParts::Fraction(value) => Json::Fraction(JsonFraction::carry(value)),
        ValueParts::Text(text) => Json::Text(text),
        ValueParts::Array(values) => {
            let items = json_of_items(values, Ghost(whole));
            assert(Json::Array(items).tree()->Array_0 =~= trees(items@));
            Json::Array(items)
        },
        ValueParts::Object(values) => Json::Object(
            JsonObject::of_members(json_of_members(values, Ghost(whole))),
        ),
    }
}

fn values_of_items(items: &Vec<Json>, Ghost(whole): Ghost<JsonTree>) -> (values: Vec<
    serde_json::Value,
>)
    requires
        whole == JsonTree::Array(trees(items@)),
    ensures
        ValueParts::Array(values).tree() == whole,
    decreases whole, 0int,
{
    let mut values: Vec<serde_json::Value> = Vec::new();
    let mut i: usize = 0;
    while i < items.len()
        invariant
            i <= items.len(),
            values@.len() == i,
            whole == JsonTree::Array(trees(items@)),
            forall|k: int| 0 <= k < i ==> value_tree(values@[k]) == items@[k].tree(),
        decreases items.len() - i,
    {
        assert(whole->Array_0[i as int] == items@[i as int].tree());
        values.push(value_of_json(&items[i]));
        i = i + 1;
    }
    assert(ValueParts::Array(values).tree()->Array_0 =~= trees(items@));
    values
}

fn values_of_members(object: &JsonObject, Ghost(whole): Ghost<JsonTree>) -> (values: Vec<
    (String, serde_json::Value),
>)
    requires
        whole == JsonTree::Object(object.entries()),
    ensures
        value_entries(values@) == object.entries(),
        ascending(object.entries()),
    decreases whole, 0int,
{
    let members = object.members();
    let mut values: Vec<(String, serde_json::Value)> = Vec::new();
    let mut i: usize = 0;
    while i < members.len()
        invariant
            i <= members.len(),
            values@.len() == i,
            whole == JsonTree::Object(object.entries()),
            entries(members@) == object.entries(),
            forall|k: int|
                0 <= k < i ==> values@[k].0@ == members@[k].0@ && value_tree(values@[k].1)
                    == members@[k].1.tree(),
        decreases members.len() - i,
    {
        assert(whole->Object_0[i as int].1 == members@[i as int].1.tree());
        values.push((members[i].0.clone(), value_of_json(&members[i].1)));
        i = i + 1;
    }
    assert(value_entries(values@) =~= object.entries());
    values
}

/// The value as one of `serde_json`.
fn value_of_json(json: &Json) -> (value: serde_json::Value)
    ensures
        value_tree(value) == json.tree(),
    decreases json.tree(), 1int,
{
    match json {
        Json::Null => from_parts(ValueParts::Null),
        Json::Bool(b) => from_parts(ValueParts::Bool(*b)),
        Json::Integer(i) => from_parts(ValueParts::Integer(*i)),
        Json::Fraction(fraction) => from_parts(ValueParts::Fraction(fraction.value())),
        Json::Text(text) => from_parts(ValueParts::Text(text.clone())),
        Json::Array(items) => {
            assert(json.tree()->Array_0 =~= trees(items@));
            from_parts(ValueParts::Array(values_of_items(items, Ghost(json.tree()))))
        },
        Json::Object(object) => {
            from_parts(ValueParts::Object(values_of_members(object, Ghost(json.tree()))))
        },
    }
}

/// The outcome of a parse as a mathematical object.
pub open spec fn parse_view(outcome: Result<Json, String>) -> Result<JsonTree, Seq<char>> {
    match outcome {
        Ok(json) => Ok(json.tree()),
        Err(message) => Err(message@),
    }
}

/// Parses bytes as JSON. The error is the parser's message.
pub fn parse_bytes(bytes: &[u8]) -> (outcome: Result<Json, String>)
    ensures
        parse_view(outcome) == parsed_bytes(bytes@),
{
    match value_of_bytes(bytes) {
        Ok(value) => Ok(json_of_value(value)),
        Err(message) => Err(message),
    }
}

/// Parses a text as JSON. The error is the parser's message.
pub fn parse_text(text: &str) -> (outcome: Result<Json, String>)
    ensures
        parse_view(outcome) == parsed_text(text@),
{
    match value_of_text(text) {
        Ok(value) => Ok(json_of_value(value)),
        Err(message) => Err(message),
    }
}

/// The outcome of a rendering as a mathematical object.
pub open spec fn render_view(outcome: Result<Vec<u8>, String>) -> Result<Seq<u8>, Seq<char>> {
    match outcome {
        Ok(bytes) => Ok(bytes@),
        Err(message) => Err(message@),
    }
}

/// Writes a value out as compact JSON, which always succeeds.
pub fn render(json: &Json) -> (outcome: Result<Vec<u8>, String>)
    ensures
        outcome is Ok,
        outcome->Ok_0@ == rendered(json.tree()),
{
    bytes_of_value(&value_of_json(json))
}

} // verus!
