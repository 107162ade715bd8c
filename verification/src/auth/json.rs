//! JSON values as the library reads them: the value type, the lookup of
//! members, and the reading of texts and integers.

use crate::text::same_text;
use vstd::prelude::*;
use vstd::string::*;

verus! {

/// A JSON value.
pub enum Json {
    /// `null`
    Null,
    /// `true` or `false`
    Bool(bool),
    /// A number, with the integer it is where it is one in the range of
    /// `i64`.
    Number(Option<i64>),
    /// A string.
    Text(String),
    /// An array, with its items in order.
    Array(Vec<Json>),
    /// An object, with its members in order. Where a name occurs twice, the
    /// first member with it counts.
    Object(Vec<(String, Json)>),
}

/// The first of `members` with the name `name`.
pub open spec fn member_of(members: Seq<(String, Json)>, name: Seq<char>) -> Option<Json>
    decreases members.len(),
{
    if members.len() == 0 {
        None
    } else if members.first().0@ == name {
        Some(members.first().1)
    } else {
        member_of(members.drop_first(), name)
    }
}

/// Looks up the first of `members` with the name `name`.
fn find_member<'a>(members: &'a Vec<(String, Json)>, name: &str) -> (entry: Option<&'a Json>)
    ensures
        found(entry) == member_of(members@, name@),
{
    let mut i: usize = 0;
    proof {
        assert(members@.skip(0) == members@);
    }
    while i < members.len()
        invariant
            i <= members.len(),
            member_of(members@, name@) == member_of(members@.skip(i as int), name@),
        decreases members.len() - i,
    {
        proof {
            assert(members@.skip(i as int).drop_first() == members@.skip(i + 1));
        }
        if same_text(members[i].0.as_str(), name) {
            return Some(&members[i].1);
        }
        i = i + 1;
    }
    None
}

impl Json {
    /// The items of an array; nothing for a value of another kind.
    pub open spec fn items(self) -> Option<Seq<Json>> {
        match self {
            Json::Array(items) => Some(items@),
            _ => None,
        }
    }

    /// The items of an array.
    pub fn as_array(&self) -> (items: Option<&Vec<Json>>)
        ensures
            items is Some == self.items() is Some,
            items matches Some(list) ==> self.items() == Some(list@),
    {
        match self {
            Json::Array(items) => Some(items),
            _ => None,
        }
    }

    /// The member `name` of an object; nothing for a value of another kind.
    pub open spec fn member(self, name: Seq<char>) -> Option<Json> {
        match self {
            Json::Object(members) => member_of(members@, name),
            _ => None,
        }
    }

    /// Looks up the member `name` of an object.
    pub fn get(&self, name: &str) -> (entry: Option<&Json>)
        ensures
            found(entry) == self.member(name@),
    {
        match self {
            Json::Object(members) => find_member(members, name),
            _ => None,
        }
    }
}

/// A value that was looked up, without the borrow.
pub open spec fn found(entry: Option<&Json>) -> Option<Json> {
    match entry {
        Some(value) => Some(*value),
        None => None,
    }
}

/// The text of an entry that must be a string.
pub open spec fn as_text(entry: Option<Json>) -> Option<String> {
    match entry {
        Some(Json::Text(text)) => Some(text),
        _ => None,
    }
}

/// The text of an entry that may be left out or null and else must be a
/// string; the outer `None` stands for an entry of another kind.
pub open spec fn as_optional_text(entry: Option<Json>) -> Option<Option<String>> {
    match entry {
        None => Some(None),
        Some(Json::Null) => Some(None),
        Some(Json::Text(text)) => Some(Some(text)),
        Some(_) => None,
    }
}

/// The integer of an entry that must be an integer in the range of `i64`.
pub open spec fn as_integer(entry: Option<Json>) -> Option<i64> {
    match entry {
        Some(Json::Number(Some(number))) => Some(number),
        _ => None,
    }
}

/// The integer of an entry that may be left out or null and else must be an
/// integer; the outer `None` stands for an entry of another kind.
pub open spec fn as_optional_integer(entry: Option<Json>) -> Option<Option<i64>> {
    match entry {
        None => Some(None),
        Some(Json::Null) => Some(None),
        Some(Json::Number(Some(number))) => Some(Some(number)),
        Some(_) => None,
    }
}

/// Reads an entry that must be a string.
pub fn read_text(entry: Option<&Json>) -> (text: Option<String>)
    ensures
        text == as_text(found(entry)),
{
    match entry {
        Some(Json::Text(text)) => Some(text.clone()),
        _ => None,
    }
}

/// Reads an entry that may be left out or null and else must be a string.
pub fn read_optional_text(entry: Option<&Json>) -> (text: Option<Option<String>>)
    ensures
        text == as_optional_text(found(entry)),
{
    match entry {
        None => Some(None),
        Some(Json::Null) => Some(None),
        Some(Json::Text(text)) => Some(Some(text.clone())),
        Some(_) => None,
    }
}

/// Reads an entry that must be an integer.
pub fn read_integer(entry: Option<&Json>) -> (number: Option<i64>)
    ensures
        number == as_integer(found(entry)),
{
    match entry {
        Some(Json::Number(Some(number))) => Some(*number),
        _ => None,
    }
}

/// Reads an entry that may be left out or null and else must be an integer.
pub fn read_optional_integer(entry: Option<&Json>) -> (number: Option<Option<i64>>)
    ensures
        number == as_optional_integer(found(entry)),
{
    match entry {
        None => Some(None),
        Some(Json::Null) => Some(None),
        Some(Json::Number(Some(number))) => Some(Some(*number)),
        Some(_) => None,
    }
}

} // verus!
