//! Reading JSON.
use crate::codec::{parse_view, render_view};
use crate::json::{
    entries, lookup_finds, lookup_is_exact, trees, Json, JsonTree,
};
use vstd::prelude::*;

verus! {

/// The first member with a key is what is read under the key, as a text only where it is one and
/// as an integer only where it is one.
pub proof fn a_member_is_read_by_its_key(members: Seq<(Seq<char>, JsonTree)>, at: int)
    requires
        0 <= at < members.len(),
        forall|k: int| 0 <= k < at ==> (#[trigger] members[k]).0 != members[at].0,
    ensures
        ({
            let object = JsonTree::Object(members);
            let (key, value) = members[at];
            &&& object.get(key) == Some(value)
            &&& object.at(key) == value
            &&& object.text_at(key) == (match value {
                JsonTree::Text(text) => Some(text),
                _ => None,
            })
            &&& object.integer_at(key) == (match value {
                JsonTree::Integer(integer) => Some(integer),
                _ => None,
            })
        }),
{
    lookup_finds(members, members[at].0, at);
}

/// What is not there reads as null: a key that no member has, and every key of what is no object.
pub proof fn an_absent_member_reads_as_null(tree: JsonTree, key: Seq<char>)
    requires
        tree matches JsonTree::Object(members) ==> forall|k: int|
            0 <= k < members.len() ==> (#[trigger] members[k]).0 != key,
    ensures
        tree.get(key) is None,
        tree.at(key) == JsonTree::Null,
        tree.text_at(key) is None,
        tree.integer_at(key) is None,
{
    if let JsonTree::Object(members) = tree {
        lookup_is_exact(members, key);
    }
}

/// The items of an array are read by their places, and there is null at every other place.
pub proof fn items_are_read_by_their_places(tree: JsonTree, place: int)
    ensures
        tree.item(place) == (match tree {
            JsonTree::Array(items) if 0 <= place < items.len() => items[place],
            _ => JsonTree::Null,
        }),
{
}

/// A value is seen as what it holds, an array item by item.
pub proof fn values_are_seen_as_they_are(
    flag: bool,
    integer: i64,
    text: String,
    items: Vec<Json>,
)
    ensures
        Json::Null.tree() == JsonTree::Null,
        Json::Bool(flag).tree() == JsonTree::Bool(flag),
        Json::Integer(integer).tree() == JsonTree::Integer(integer),
        Json::Text(text).tree() == JsonTree::Text(text@),
        Json::Array(items).tree() matches JsonTree::Array(seen) && seen.len() == items@.len()
            && forall|i: int| 0 <= i < seen.len() ==> #[trigger] seen[i] == items@[i].tree(),
{
}

/// Items and members are seen one by one, in their order.
pub proof fn items_and_members_are_seen_in_order(
    items: Seq<Json>,
    members: Seq<(String, Json)>,
    at: int,
)
    ensures
        trees(items).len() == items.len(),
        0 <= at < items.len() ==> trees(items)[at] == items[at].tree(),
        entries(members).len() == members.len(),
        0 <= at < members.len() ==> entries(members)[at] == (
            members[at].0@,
            members[at].1.tree(),
        ),
{
}

/// Outcomes of parsing and of rendering are seen as what they hold.
pub proof fn outcomes_are_seen_as_they_are(json: Json, bytes: Vec<u8>, message: String)
    ensures
        parse_view(Ok(json)) == Ok::<JsonTree, Seq<char>>(json.tree()),
        parse_view(Err(message)) == Err::<JsonTree, Seq<char>>(message@),
        render_view(Ok(bytes)) == Ok::<Seq<u8>, Seq<char>>(bytes@),
        render_view(Err(message)) == Err::<Seq<u8>, Seq<char>>(message@),
{
}

} // verus!
