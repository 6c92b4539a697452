//! JSON values: their mathematical model, the values themselves, and how they are read.
use crate::codec::value_tree;
use crate::text::{
    is_before, precedes, precedes_is_irreflexive, precedes_is_total, precedes_is_transitive, same,
};
use vstd::prelude::*;

verus! {

/// A JSON value as a mathematical object. The members of an object stand in ascending order of
/// their keys.
pub enum JsonTree {
    Null,
    Bool(bool),
    /// A number that is an integer between `i64::MIN` and `i64::MAX`.
    Integer(i64),
    /// Any other number, by its numeral.
    Fraction(Seq<char>),
    Text(Seq<char>),
    Array(Seq<JsonTree>),
    Object(Seq<(Seq<char>, JsonTree)>),
}

/// A JSON value.
#[derive(Debug, PartialEq)]
pub enum Json {
    Null,
    Bool(bool),
    Integer(i64),
    Fraction(JsonFraction),
    Text(String),
    Array(Vec<Json>),
    Object(JsonObject),
}

/// A number that is no `i64`: it is carried along and never looked into.
#[derive(Debug, PartialEq)]
pub struct JsonFraction {
    value: serde_json::Value,
}

/// The members of a JSON object, in ascending order of their keys, each key once.
#[derive(Debug, PartialEq)]
pub struct JsonObject {
    members: Vec<(String, Json)>,
}

/// The trees of the values in `items`, in their order.
pub open spec fn trees(items: Seq<Json>) -> Seq<JsonTree> {
    Seq::new(items.len(), |i: int| items[i].tree())
}

/// The members of an object in order: keys and the trees of their values.
pub open spec fn entries(members: Seq<(String, Json)>) -> Seq<(Seq<char>, JsonTree)> {
    Seq::new(members.len(), |i: int| (members[i].0@, members[i].1.tree()))
}

/// The value of the first member with that key.
pub open spec fn lookup(members: Seq<(Seq<char>, JsonTree)>, key: Seq<char>) -> Option<JsonTree>
    decreases members.len(),
{
    if members.len() == 0 {
        None
    } else if members[0].0 == key {
        Some(members[0].1)
    } else {
        lookup(members.drop_first(), key)
    }
}

/// How many members at the front have keys before `key`.
pub open spec fn rank(members: Seq<(Seq<char>, JsonTree)>, key: Seq<char>) -> nat
    decreases members.len(),
{
    if members.len() == 0 || !precedes(members[0].0, key) {
        0
    } else {
        1 + rank(members.drop_first(), key)
    }
}

/// The members with `key` set to `value`: in place where the key is there, else where the order
/// puts it.
pub open spec fn with_member(
    members: Seq<(Seq<char>, JsonTree)>,
    key: Seq<char>,
    value: JsonTree,
) -> Seq<(Seq<char>, JsonTree)> {
    let at = rank(members, key) as int;
    if at < members.len() && members[at].0 == key {
        members.update(at, (key, value))
    } else {
        members.insert(at, (key, value))
    }
}

/// The keys stand in strictly ascending order.
pub open spec fn ascending(members: Seq<(Seq<char>, JsonTree)>) -> bool {
    forall|i: int, j: int|
        0 <= i < j < members.len() ==> precedes(
            (#[trigger] members[i]).0,
            (#[trigger] members[j]).0,
        )
}

impl JsonTree {
    /// The member with that key, where this is an object that has one.
    pub open spec fn get(self, key: Seq<char>) -> Option<JsonTree> {
        match self {
            JsonTree::Object(members) => lookup(members, key),
            _ => None,
        }
    }

    /// The member with that key, or null.
    pub open spec fn at(self, key: Seq<char>) -> JsonTree {
        match self.get(key) {
            Some(value) => value,
            None => JsonTree::Null,
        }
    }

    /// The item at that place of an array, or null.
    pub open spec fn item(self, index: int) -> JsonTree {
        match self {
            JsonTree::Array(items) => if 0 <= index < items.len() {
                items[index]
            } else {
                JsonTree::Null
            },
            _ => JsonTree::Null,
        }
    }

    /// The characters, where this is a text.
    pub open spec fn text(self) -> Option<Seq<char>> {
        match self {
            JsonTree::Text(text) => Some(text),
            _ => None,
        }
    }

    /// The integer, where this is one.
    pub open spec fn integer(self) -> Option<i64> {
        match self {
            JsonTree::Integer(integer) => Some(integer),
            _ => None,
        }
    }

    /// The text of the member with that key.
    pub open spec fn text_at(self, key: Seq<char>) -> Option<Seq<char>> {
        self.at(key).text()
    }

    /// The integer of the member with that key.
    pub open spec fn integer_at(self, key: Seq<char>) -> Option<i64> {
        self.at(key).integer()
    }
}

impl Json {
    /// The value as a mathematical object.
    pub open spec fn tree(self) -> JsonTree
        decreases self,
    {
        match self {
            Json::Null => JsonTree::Null,
            Json::Bool(b) => JsonTree::Bool(b),
            Json::Integer(i) => JsonTree::Integer(i),
            Json::Fraction(fraction) => fraction.tree(),
            Json::Text(text) => JsonTree::Text(text@),
            Json::Array(items) => JsonTree::Array(
                Seq::new(
                    items@.len(),
                    |i: int|
                        if 0 <= i < items@.len() {
                            items[i].tree()
                        } else {
                            JsonTree::Null
                        },
                ),
            ),
            Json::Object(object) => JsonTree::Object(object.entries()),
        }
    }
}

impl JsonFraction {
    /// The number as a mathematical object.
    pub closed spec fn tree(self) -> JsonTree {
        value_tree(self.value)
    }

    #[verifier::type_invariant]
    closed spec fn is_fraction(self) -> bool {
        value_tree(self.value) is Fraction
    }

    pub(crate) fn carry(value: serde_json::Value) -> (fraction: JsonFraction)
        requires
            value_tree(value) is Fraction,
        ensures
            fraction.tree() == value_tree(value),
    {
        JsonFraction { value }
    }

    pub(crate) fn value(&self) -> (value: serde_json::Value)
        ensures
            value_tree(value) == self.tree(),
            self.tree() is Fraction,
    {
        proof {
            use_type_invariant(self);
        }
        self.value.clone()
    }
}

impl JsonObject {
    /// The members as mathematical objects, in ascending order of their keys.
    pub closed spec fn entries(self) -> Seq<(Seq<char>, JsonTree)>
        decreases self,
    {
        Seq::new(
            self.members@.len(),
            |i: int|
                if 0 <= i < self.members@.len() {
                    (self.members[i].0@, self.members[i].1.tree())
                } else {
                    (Seq::empty(), JsonTree::Null)
                },
        )
    }

    #[verifier::type_invariant]
    closed spec fn is_ascending(self) -> bool {
        ascending(self.entries())
    }

    pub(crate) fn of_members(members: Vec<(String, Json)>) -> (object: JsonObject)
        requires
            ascending(entries(members@)),
        ensures
            object.entries() == entries(members@),
    {
        assert(JsonObject { members }.entries() =~= entries(members@));
        JsonObject { members }
    }

    pub(crate) fn members(&self) -> (members: &Vec<(String, Json)>)
        ensures
            entries(members@) == self.entries(),
            ascending(self.entries()),
    {
        proof {
            use_type_invariant(self);
            assert(self.entries() =~= entries(self.members@));
        }
        &self.members
    }

    /// How many members there are.
    pub fn len(&self) -> (length: usize)
        ensures
            length == self.entries().len(),
    {
        self.members.len()
    }

    /// An object without members.
    pub fn new() -> (object: JsonObject)
        ensures
            object.entries() == Seq::<(Seq<char>, JsonTree)>::empty(),
    {
        JsonObject { members: Vec::new() }
    }

    /// The value of the member with that key.
    pub fn get(&self, key: &str) -> (value: Option<&Json>)
        ensures
            match value {
                Some(json) => lookup(self.entries(), key@) == Some(json.tree()),
                None => lookup(self.entries(), key@) is None,
            },
    {
        let mut i: usize = 0;
        assert(self.entries().skip(0) =~= self.entries());
        while i < self.members.len()
            invariant
                0 <= i <= self.members.len(),
                lookup(self.entries(), key@) == lookup(self.entries().skip(i as int), key@),
            decreases self.members.len() - i,
        {
            assert(self.entries().skip(i as int).drop_first() =~= self.entries().skip(i + 1));
            if same(self.members[i].0.as_str(), key) {
                return Some(&self.members[i].1);
            }
            i = i + 1;
        }
        None
    }
}

impl JsonObject {
    /// The object with `key` set to `value`.
    pub fn with(self, key: &str, value: Json) -> (object: JsonObject)
        ensures
            object.entries() == with_member(self.entries(), key@, value.tree()),
    {
        proof {
            use_type_invariant(&self);
        }
        let ghost before = self.entries();
        let mut members = self.members;
        let mut at: usize = 0;
        while at < members.len() && is_before(members[at].0.as_str(), key)
            invariant
                at <= members.len(),
                entries(members@) == before,
                forall|k: int| 0 <= k < at ==> precedes((#[trigger] before[k]).0, key@),
            decreases members.len() - at,
        {
            assert(before[at as int].0 == members@[at as int].0@);
            at = at + 1;
        }
        proof {
            if at < members.len() {
                assert(before[at as int].0 == members@[at as int].0@);
            }
            rank_is(before, key@, at as nat);
        }
        let ghost shown = with_member(before, key@, value.tree());
        if at < members.len() && same(members[at].0.as_str(), key) {
            members.set(at, (key.to_owned(), value));
        } else {
            members.insert(at, (key.to_owned(), value));
        }
        proof {
            assert(entries(members@) =~= shown);
            with_member_keeps_ascending(before, key@, shown[at as int].1);
        }
        JsonObject::of_members(members)
    }
}

/// The first place whose key is not before `key` is the rank of `key`.
proof fn rank_is(members: Seq<(Seq<char>, JsonTree)>, key: Seq<char>, at: nat)
    requires
        at <= members.len(),
        forall|k: int| 0 <= k < at ==> precedes((#[trigger] members[k]).0, key),
        at < members.len() ==> !precedes(members[at as int].0, key),
    ensures
        rank(members, key) == at,
    decreases at,
{
    if at > 0 {
        let rest = members.drop_first();
        assert(precedes(members[0].0, key));
        assert forall|k: int| 0 <= k < at - 1 implies precedes((#[trigger] rest[k]).0, key) by {
            assert(rest[k] == members[k + 1]);
        }
        rank_is(rest, key, (at - 1) as nat);
    }
}

/// The rank of `key` is within the members, every member before it has a key before `key`, and
/// the member there has not.
proof fn rank_splits(members: Seq<(Seq<char>, JsonTree)>, key: Seq<char>)
    ensures
        rank(members, key) <= members.len(),
        forall|k: int| 0 <= k < rank(members, key) ==> precedes((#[trigger] members[k]).0, key),
        rank(members, key) < members.len() ==> !precedes(
            members[rank(members, key) as int].0,
            key,
        ),
    decreases members.len(),
{
    if members.len() > 0 && precedes(members[0].0, key) {
        let rest = members.drop_first();
        rank_splits(rest, key);
        assert forall|k: int| 0 <= k < rank(members, key) implies precedes(
            (#[trigger] members[k]).0,
            key,
        ) by {
            if k > 0 {
                assert(members[k] == rest[k - 1]);
            }
        }
    }
}

/// Setting a member keeps the keys in strictly ascending order.
pub proof fn with_member_keeps_ascending(
    members: Seq<(Seq<char>, JsonTree)>,
    key: Seq<char>,
    value: JsonTree,
)
    requires
        ascending(members),
    ensures
        ascending(with_member(members, key, value)),
{
    rank_splits(members, key);
    let at = rank(members, key) as int;
    let set = with_member(members, key, value);
    if !(at < members.len() && members[at].0 == key) {
        if at < members.len() {
            precedes_is_total(members[at].0, key);
        }
        assert forall|i: int, j: int| 0 <= i < j < set.len() implies precedes(
            (#[trigger] set[i]).0,
            (#[trigger] set[j]).0,
        ) by {
            if i == at {
                assert(set[j] == members[j - 1]);
                if j - 1 > at {
                    precedes_is_transitive(key, members[at].0, members[j - 1].0);
                }
            } else if j == at {
                assert(set[i] == members[i]);
            } else {
                let m = if i < at { i } else { i - 1 };
                let n = if j < at { j } else { j - 1 };
                assert(set[i] == members[m] && set[j] == members[n]);
            }
        }
    }
}

/// The first member whose key is `key` is the one that a lookup finds.
pub proof fn lookup_finds(members: Seq<(Seq<char>, JsonTree)>, key: Seq<char>, at: int)
    requires
        0 <= at < members.len(),
        members[at].0 == key,
        forall|k: int| 0 <= k < at ==> (#[trigger] members[k]).0 != key,
    ensures
        lookup(members, key) == Some(members[at].1),
    decreases at,
{
    if at > 0 {
        let rest = members.drop_first();
        assert(members[0].0 != key);
        assert forall|k: int| 0 <= k < at - 1 implies (#[trigger] rest[k]).0 != key by {
            assert(rest[k] == members[k + 1]);
        }
        lookup_finds(rest, key, at - 1);
    }
}

/// A lookup finds nothing exactly where no member has the key, and else a member that has it.
pub proof fn lookup_is_exact(members: Seq<(Seq<char>, JsonTree)>, key: Seq<char>)
    ensures
        lookup(members, key) is None <==> (forall|k: int|
            0 <= k < members.len() ==> (#[trigger] members[k]).0 != key),
        lookup(members, key) matches Some(value) ==> exists|k: int|
            0 <= k < members.len() && #[trigger] members[k] == (key, value),
    decreases members.len(),
{
    if members.len() > 0 {
        let rest = members.drop_first();
        lookup_is_exact(rest, key);
        if members[0].0 == key {
            assert(members[0] == (key, members[0].1));
        } else {
            assert forall|k: int| 0 <= k < members.len() && lookup(rest, key) is None implies (
            #[trigger] members[k]).0 != key by {
                if k > 0 {
                    assert(members[k] == rest[k - 1]);
                }
            }
            if let Some(value) = lookup(members, key) {
                let k = choose|k: int| 0 <= k < rest.len() && #[trigger] rest[k] == (key, value);
                assert(members[k + 1] == (key, value));
            }
        }
    }
}

/// What was set for a key is what a lookup of the key gives back.
pub proof fn lookup_gives_what_was_set(
    members: Seq<(Seq<char>, JsonTree)>,
    key: Seq<char>,
    value: JsonTree,
)
    ensures
        lookup(with_member(members, key, value), key) == Some(value),
{
    rank_splits(members, key);
    precedes_is_irreflexive(key);
    let at = rank(members, key) as int;
    let set = with_member(members, key, value);
    assert forall|k: int| 0 <= k < at implies (#[trigger] set[k]).0 != key by {
        assert(set[k] == members[k]);
    }
    lookup_finds(set, key, at);
}

/// In an object in ascending order, the member of a key that is there stands at the key's rank.
pub proof fn member_stands_at_its_rank(members: Seq<(Seq<char>, JsonTree)>, key: Seq<char>)
    requires
        ascending(members),
        lookup(members, key) is Some,
    ensures
        rank(members, key) < members.len(),
        members[rank(members, key) as int] == (key, lookup(members, key)->0),
{
    lookup_is_exact(members, key);
    let value = lookup(members, key)->0;
    let k = choose|k: int| 0 <= k < members.len() && #[trigger] members[k] == (key, value);
    precedes_is_irreflexive(key);
    rank_is(members, key, k as nat);
}

/// Setting one key leaves what every other key holds as it was.
pub proof fn setting_leaves_other_keys(
    members: Seq<(Seq<char>, JsonTree)>,
    key: Seq<char>,
    value: JsonTree,
    other: Seq<char>,
)
    requires
        other != key,
    ensures
        lookup(with_member(members, key, value), other) == lookup(members, other),
    decreases members.len(),
{
    let set = with_member(members, key, value);
    if members.len() > 0 && precedes(members[0].0, key) {
        let rest = members.drop_first();
        precedes_is_irreflexive(key);
        setting_leaves_other_keys(rest, key, value, other);
        rank_splits(members, key);
        assert(set.drop_first() =~= with_member(rest, key, value));
        assert(set[0] == members[0]);
    } else if members.len() > 0 && members[0].0 == key {
        assert(set.drop_first() =~= members.drop_first());
    } else {
        assert(set.drop_first() =~= members);
        assert(set[0] == (key, value));
    }
}

/// A lookup in an object in ascending order depends on its members alone: where a member stands,
/// a lookup of its key gives its value.
pub proof fn lookup_reads_each_member(members: Seq<(Seq<char>, JsonTree)>, at: int)
    requires
        ascending(members),
        0 <= at < members.len(),
    ensures
        lookup(members, members[at].0) == Some(members[at].1),
{
    precedes_is_irreflexive(members[at].0);
    lookup_finds(members, members[at].0, at);
}

impl Json {
    /// The member with that key, where this is an object that has one.
    pub fn get(&self, key: &str) -> (value: Option<&Json>)
        ensures
            match value {
                Some(json) => self.tree().get(key@) == Some(json.tree()),
                None => self.tree().get(key@) is None,
            },
    {
        match self {
            Json::Object(object) => object.get(key),
            Json::Fraction(fraction) => {
                proof {
                    use_type_invariant(fraction);
                }
                None
            },
            _ => None,
        }
    }

    /// The characters, where this is a text.
    pub fn as_str(&self) -> (text: Option<&str>)
        ensures
            match text {
                Some(text) => self.tree().text() == Some(text@),
                None => self.tree().text() is None,
            },
    {
        match self {
            Json::Text(text) => Some(text.as_str()),
            Json::Fraction(fraction) => {
                proof {
                    use_type_invariant(fraction);
                }
                None
            },
            _ => None,
        }
    }

    /// The integer, where this is one that fits an `i64`.
    pub fn as_i64(&self) -> (integer: Option<i64>)
        ensures
            integer == self.tree().integer(),
    {
        match self {
            Json::Integer(i) => Some(*i),
            Json::Fraction(fraction) => {
                proof {
                    use_type_invariant(fraction);
                }
                None
            },
            _ => None,
        }
    }

    /// Whether this is null.
    pub fn is_null(&self) -> (null: bool)
        ensures
            null == (self.tree() is Null),
    {
        match self {
            Json::Null => true,
            Json::Fraction(fraction) => {
                proof {
                    use_type_invariant(fraction);
                }
                false
            },
            _ => false,
        }
    }

    /// The members, where this is an object.
    pub fn as_object(&self) -> (object: Option<&JsonObject>)
        ensures
            match object {
                Some(object) => self.tree() == JsonTree::Object(object.entries()),
                None => !(self.tree() is Object),
            },
    {
        match self {
            Json::Object(object) => Some(object),
            Json::Fraction(fraction) => {
                proof {
                    use_type_invariant(fraction);
                }
                None
            },
            _ => None,
        }
    }

    /// The items, where this is an array.
    pub fn as_array(&self) -> (items: Option<&Vec<Json>>)
        ensures
            match items {
                Some(items) => self.tree() == JsonTree::Array(trees(items@)),
                None => !(self.tree() is Array),
            },
    {
        match self {
            Json::Array(items) => {
                assert(self.tree()->Array_0 =~= trees(items@));
                Some(items)
            },
            Json::Fraction(fraction) => {
                proof {
                    use_type_invariant(fraction);
                }
                None
            },
            _ => None,
        }
    }

    /// The text of the member with that key, where this is an object whose member is a text.
    pub fn text_at(&self, key: &str) -> (text: Option<&str>)
        ensures
            match text {
                Some(text) => self.tree().text_at(key@) == Some(text@),
                None => self.tree().text_at(key@) is None,
            },
    {
        match self.get(key) {
            Some(value) => value.as_str(),
            None => None,
        }
    }

    /// The integer of the member with that key, where this is an object whose member is one.
    pub fn integer_at(&self, key: &str) -> (integer: Option<i64>)
        ensures
            integer == self.tree().integer_at(key@),
    {
        match self.get(key) {
            Some(value) => value.as_i64(),
            None => None,
        }
    }
}

impl Clone for JsonFraction {
    fn clone(&self) -> (copy: JsonFraction)
        ensures
            copy.tree() == self.tree(),
    {
        proof {
            use_type_invariant(self);
        }
        JsonFraction { value: self.value.clone() }
    }
}

fn copy_items(items: &Vec<Json>) -> (copies: Vec<Json>)
    ensures
        copies.len() == items.len(),
        forall|k: int| 0 <= k < items.len() ==> copies@[k].tree() == items@[k].tree(),
    decreases items,
{
    let mut copies: Vec<Json> = Vec::new();
    let mut i: usize = 0;
    while i < items.len()
        invariant
            i <= items.len(),
            copies.len() == i,
            forall|k: int| 0 <= k < i ==> copies@[k].tree() == items@[k].tree(),
        decreases items.len() - i,
    {
        copies.push(items[i].clone());
        i = i + 1;
    }
    copies
}

impl Clone for Json {
    fn clone(&self) -> (copy: Json)
        ensures
            copy.tree() == self.tree(),
        decreases self,
    {
        match self {
            Json::Null => Json::Null,
            Json::Bool(b) => Json::Bool(*b),
            Json::Integer(i) => Json::Integer(*i),
            Json::Fraction(fraction) => Json::Fraction(fraction.clone()),
            Json::Text(text) => Json::Text(text.clone()),
            Json::Array(items) => {
                let copies = copy_items(items);
                assert(Json::Array(copies).tree()->Array_0 =~= self.tree()->Array_0);
                Json::Array(copies)
            },
            Json::Object(object) => Json::Object(object.clone()),
        }
    }
}

impl Clone for JsonObject {
    fn clone(&self) -> (copy: JsonObject)
        ensures
            copy.entries() == self.entries(),
        decreases self,
    {
        let mut members: Vec<(String, Json)> = Vec::new();
        let mut i: usize = 0;
        while i < self.members.len()
            invariant
                i <= self.members.len(),
                members.len() == i,
                forall|k: int|
                    0 <= k < i ==> members@[k].0@ == self.members@[k].0@ && members@[k].1.tree()
                        == self.members@[k].1.tree(),
            decreases self.members.len() - i,
        {
            members.push((self.members[i].0.clone(), self.members[i].1.clone()));
            i = i + 1;
        }
        proof {
            use_type_invariant(self);
            assert(JsonObject { members }.entries() =~= self.entries());
        }
        JsonObject { members }
    }
}

} // verus!
