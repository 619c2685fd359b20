//! JSON documents as plain values, and the one place where bytes become a
//! document.

use crate::text::str_eq;
use vstd::prelude::*;

verus! {

/// `serde_json::Value`, of which nothing is known here but that it exists.
#[verifier::external_type_specification]
#[verifier::external_body]
pub struct ExJsonValue(serde_json::Value);

/// A JSON document. A number is kept as text: not as the body spells it, but
/// as `serde_json` writes the number it read (`1e2` is kept as `100.0`). An
/// object keeps its members as a list of name and value.
#[derive(Debug)]
pub enum Json {
    Null,
    Bool(bool),
    Number(String),
    String(String),
    Array(Vec<Json>),
    Object(Vec<(String, Json)>),
}

/// The value of the first member called `key` in a list of members.
pub open spec fn first_named(members: Seq<(String, Json)>, key: Seq<char>) -> Option<Json>
    decreases members.len(),
{
    if members.len() == 0 {
        None
    } else if members[0].0@ == key {
        Some(members[0].1)
    } else {
        first_named(members.drop_first(), key)
    }
}

/// The place of the first member called `key`.
fn index_named(members: &Vec<(String, Json)>, key: &str) -> (found: Option<usize>)
    ensures
        found matches Some(i) ==> i < members.len() && first_named(members@, key@) == Some(
            members[i as int].1,
        ),
        found is None ==> first_named(members@, key@) is None,
{
    let mut i: usize = 0;
    assert(members@.subrange(0, members.len() as int) =~= members@);
    while i < members.len()
        invariant
            i <= members.len(),
            first_named(members@, key@) == first_named(
                members@.subrange(i as int, members.len() as int),
                key@,
            ),
        decreases members.len() - i,
    {
        let ghost rest = members@.subrange(i as int, members.len() as int);
        assert(rest[0] == members@[i as int]);
        assert(rest.drop_first() =~= members@.subrange(i + 1, members.len() as int));
        if str_eq(members[i].0.as_str(), key) {
            return Some(i);
        }
        i += 1;
    }
    None
}

impl Json {
    /// The member called `key`, where this is an object that has one.
    pub open spec fn member(self, key: Seq<char>) -> Option<Json> {
        match self {
            Json::Object(members) => first_named(members@, key),
            _ => None,
        }
    }

    /// The member called `key`, where this is an object that has one and the
    /// member is not `null`: a `null` member counts as a missing one.
    pub open spec fn present(self, key: Seq<char>) -> Option<Json> {
        match self.member(key) {
            Some(Json::Null) => None,
            other => other,
        }
    }

    /// Whether this is an object.
    pub fn is_object(&self) -> (yes: bool)
        ensures
            yes == (self is Object),
    {
        match self {
            Json::Object(_) => true,
            _ => false,
        }
    }

    /// Whether this is `null`.
    pub fn is_null(&self) -> (yes: bool)
        ensures
            yes == (self is Null),
    {
        match self {
            Json::Null => true,
            _ => false,
        }
    }

    /// Looks a member up by name.
    pub fn get(&self, key: &str) -> (found: Option<&Json>)
        ensures
            found matches Some(value) ==> self.member(key@) == Some(*value),
            found is None ==> self.member(key@) is None,
    {
        match self {
            Json::Object(members) => match index_named(members, key) {
                Some(i) => Some(&members[i].1),
                None => None,
            },
            _ => None,
        }
    }

    /// Looks a member up by name, taking a `null` member for a missing one.
    pub fn get_present(&self, key: &str) -> (found: Option<&Json>)
        ensures
            found matches Some(value) ==> self.present(key@) == Some(*value),
            found is None ==> self.present(key@) is None,
    {
        match self.get(key) {
            Some(value) => if value.is_null() {
                None
            } else {
                Some(value)
            },
            None => None,
        }
    }

    /// Takes a member out by name, a `null` member counting as a missing one.
    pub fn take_present(self, key: &str) -> (taken: Option<Json>)
        ensures
            taken == self.present(key@),
    {
        match self {
            Json::Object(members) => {
                let mut members = members;
                match index_named(&members, key) {
                    Some(i) => {
                        let (_, value) = members.remove(i);
                        if value.is_null() {
                            None
                        } else {
                            Some(value)
                        }
                    },
                    None => None,
                }
            },
            _ => None,
        }
    }
}

/// A member under another name, wherever it stands, does not change what is
/// found under `key`.
pub proof fn lemma_other_members_are_ignored(
    members: Seq<(String, Json)>,
    at: int,
    other: (String, Json),
    key: Seq<char>,
)
    requires
        0 <= at <= members.len(),
        other.0@ != key,
    ensures
        first_named(members.insert(at, other), key) == first_named(members, key),
    decreases at,
{
    let with_other = members.insert(at, other);
    if at == 0 {
        assert(with_other.drop_first() =~= members);
    } else {
        assert(with_other[0] == members[0]);
        assert(with_other.drop_first() =~= members.drop_first().insert(at - 1, other));
        lemma_other_members_are_ignored(members.drop_first(), at - 1, other, key);
    }
}

/// What `first_named` finds is the value of one of the members.
pub proof fn lemma_first_named_within(members: Seq<(String, Json)>, key: Seq<char>)
    requires
        first_named(members, key) is Some,
    ensures
        exists|k: int| 0 <= k < members.len() && members[k].1 == first_named(members, key)->0,
    decreases members.len(),
{
    if members[0].0@ == key {
        assert(members[0].1 == first_named(members, key)->0);
    } else {
        let rest = members.drop_first();
        lemma_first_named_within(rest, key);
        let k = choose|k: int| 0 <= k < rest.len() && rest[k].1 == first_named(rest, key)->0;
        assert(members[k + 1].1 == first_named(members, key)->0);
    }
}

/// A member of a document lies below the document: what is defined by
/// going from a document to its members comes to an end.
pub proof fn lemma_member_below(document: Json, key: Seq<char>)
    requires
        document.member(key) is Some,
    ensures
        decreases_to!(document => document.member(key)->0),
{
    let members = document->Object_0;
    lemma_first_named_within(members@, key);
    let k = choose|k: int|
        0 <= k < members@.len() && members@[k].1 == first_named(members@, key)->0;
    broadcast use vstd::std_specs::vec::axiom_vec_index_decreases;

    assert(decreases_to!(members => members[k]));
}

/// The document that a body holds, or `None` where the body is no JSON text.
pub uninterp spec fn json_document(body: Seq<u8>) -> Option<Json>;

/// A `serde_json::Value` rewritten as a [`Json`], variant by variant: a
/// number as the text `serde_json` writes it with, a list item by item, an
/// object member by member in the order `serde_json` keeps them. Nothing is
/// claimed of it here; [`read_json`] is where it is used.
#[verifier::external_body]
fn json_of_value(value: &serde_json::Value) -> Json {
    match value {
        serde_json::Value::Null => Json::Null,
        serde_json::Value::Bool(b) => Json::Bool(*b),
        serde_json::Value::Number(n) => Json::Number(n.to_string()),
        serde_json::Value::String(s) => Json::String(s.clone()),
        serde_json::Value::Array(items) => Json::Array(items.iter().map(json_of_value).collect()),
        serde_json::Value::Object(members) => Json::Object(
            members.iter().map(|(name, value)| (name.clone(), json_of_value(value))).collect(),
        ),
    }
}

/// `serde_json::from_slice`, read as a `serde_json::Value`. The document it
/// gives for a body is a function of the body alone, named [`json_document`];
/// it gives none exactly where the body holds no document.
#[verifier::external_body]
fn read_json(body: &[u8]) -> (document: Option<Json>)
    ensures
        document == json_document(body@),
{
    match serde_json::from_slice::<serde_json::Value>(body) {
        Ok(value) => Some(json_of_value(&value)),
        Err(_) => None,
    }
}

/// Reads a body as a JSON document.
pub fn parse(body: &[u8]) -> (document: Option<Json>)
    ensures
        document == json_document(body@),
{
    read_json(body)
}

} // verus!
