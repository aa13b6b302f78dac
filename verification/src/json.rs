//! A structured document: the tagged union that schemas, request envelopes and
//! render contexts are made of.

use vstd::prelude::*;
use crate::assoc::as_map;
use crate::assoc::last_wins_holds_last;
use crate::assoc::last_with_key;
use crate::assoc::without_key;
use crate::text::same_text;

verus! {

/// A number of a document, kept as the parser produced it. The library never
/// looks inside it.
#[verifier::external_type_specification]
#[verifier::external_body]
pub struct ExNumber(serde_json::Number);

/// A structured document.
#[derive(Debug)]
pub enum Json {
    Null,
    Bool(bool),
    Number(serde_json::Number),
    Text(String),
    Array(Vec<Json>),
    Object(Vec<(String, Json)>),
}

/// The mathematical value of a document. An object is a map: of two members
/// with one key the later one counts, and the order of members does not.
pub ghost enum JsonValue {
    Null,
    Bool(bool),
    Number(serde_json::Number),
    Text(Seq<char>),
    Array(Seq<JsonValue>),
    Object(Map<Seq<char>, JsonValue>),
}

impl Json {
    /// The value of this document.
    pub open spec fn model(self) -> JsonValue
        decreases self,
    {
        match self {
            Json::Null => JsonValue::Null,
            Json::Bool(b) => JsonValue::Bool(b),
            Json::Number(n) => JsonValue::Number(n),
            Json::Text(s) => JsonValue::Text(s@),
            Json::Array(items) => JsonValue::Array(models(items@)),
            Json::Object(members) => JsonValue::Object(as_map(pairs(members@))),
        }
    }
}

/// The keys and values of a list of members.
pub open spec fn pairs(members: Seq<(String, Json)>) -> Seq<(Seq<char>, JsonValue)>
    decreases members,
{
    Seq::new(
        members.len(),
        |i: int|
            if 0 <= i < members.len() {
                (members[i].0@, members[i].1.model())
            } else {
                (Seq::empty(), JsonValue::Null)
            },
    )
}

/// The values of a list of items.
pub open spec fn models(items: Seq<Json>) -> Seq<JsonValue>
    decreases items,
{
    Seq::new(
        items.len(),
        |i: int|
            if 0 <= i < items.len() {
                items[i].model()
            } else {
                JsonValue::Null
            },
    )
}

impl JsonValue {
    /// The member of an object under `key`, if this is an object that has one.
    pub open spec fn member(self, key: Seq<char>) -> Option<JsonValue> {
        match self {
            JsonValue::Object(members) => if members.contains_key(key) {
                Some(members[key])
            } else {
                None
            },
            _ => None,
        }
    }
}

/// The position of the last member with the key `key`.
pub fn find_member(members: &Vec<(String, Json)>, key: &str) -> (found: Option<usize>)
    ensures
        match found {
            Some(at) => last_with_key(pairs(members@), members@.len(), key@, at as int),
            None => without_key(pairs(members@), key@),
        },
{
    let mut i: usize = members.len();
    while i > 0
        invariant
            i <= members.len(),
            forall|later: int|
                i <= later < members@.len() ==> (#[trigger] pairs(members@)[later]).0 != key@,
        decreases i,
    {
        i = i - 1;
        assert(pairs(members@)[i as int].0 == members@[i as int].0@);
        if same_text(members[i].0.as_str(), key) {
            return Some(i);
        }
    }
    None
}

impl Json {
    /// The member under `key`, if this is an object that has one.
    pub fn get(&self, key: &str) -> (member: Option<&Json>)
        ensures
            match member {
                Some(json) => self.model().member(key@) == Some(json.model()),
                None => self.model().member(key@) is None,
            },
    {
        match self {
            Json::Object(members) => {
                proof {
                    last_wins_holds_last(pairs(members@), members@.len(), key@);
                }
                match find_member(members, key) {
                    Some(at) => {
                        assert(pairs(members@)[at as int].1 == members@[at as int].1.model());
                        Some(&members[at].1)
                    },
                    None => None,
                }
            },
            _ => None,
        }
    }

    /// The text, if this is one.
    pub fn as_text(&self) -> (text: Option<&String>)
        ensures
            match text {
                Some(s) => self.model() == JsonValue::Text(s@),
                None => !(self.model() is Text),
            },
    {
        match self {
            Json::Text(s) => Some(s),
            _ => None,
        }
    }

    /// The items, if this is an array.
    pub fn as_array(&self) -> (items: Option<&Vec<Json>>)
        ensures
            match items {
                Some(list) => self.model() == JsonValue::Array(models(list@)),
                None => !(self.model() is Array),
            },
    {
        match self {
            Json::Array(list) => Some(list),
            _ => None,
        }
    }

    /// Whether this is an object.
    pub fn is_object(&self) -> (object: bool)
        ensures
            object == (self.model() is Object),
    {
        match self {
            Json::Object(_) => true,
            _ => false,
        }
    }
}

} // verus!
