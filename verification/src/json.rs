//! A JSON document as the scoreboard reader sees it, with the lookups that
//! the feed's paths use: a missing member, an index out of range or a lookup
//! into a value of the wrong kind all give `null`.

use vstd::prelude::*;
use vstd::string::StringExecFns;

verus! {

/// A JSON number: its value where it is an integer in `0..=u64::MAX`, and its
/// text as the JSON printer writes it.
#[derive(Debug)]
pub struct JsonNumber {
    pub as_u64: Option<u64>,
    pub text: String,
}

/// A JSON value. Object members are kept in order; a lookup takes the first
/// member with the key.
#[derive(Debug)]
pub enum JsonValue {
    Null,
    Bool(bool),
    Number(JsonNumber),
    String(String),
    Array(Vec<JsonValue>),
    Object(Vec<(String, JsonValue)>),
}

/// The value of the first member named `key`, or `null`.
pub open spec fn member_value(members: Seq<(String, JsonValue)>, key: Seq<char>) -> JsonValue
    decreases members.len(),
{
    if members.len() == 0 {
        JsonValue::Null
    } else if members[0].0@ == key {
        members[0].1
    } else {
        member_value(members.drop_first(), key)
    }
}

/// `v[key]`: the member of an object, or `null`.
pub open spec fn at_key(v: JsonValue, key: Seq<char>) -> JsonValue {
    match v {
        JsonValue::Object(members) => member_value(members@, key),
        _ => JsonValue::Null,
    }
}

/// `v[i]`: the element of an array, or `null`.
pub open spec fn at_index(v: JsonValue, i: int) -> JsonValue {
    match v {
        JsonValue::Array(items) => if 0 <= i < items@.len() {
            items@[i]
        } else {
            JsonValue::Null
        },
        _ => JsonValue::Null,
    }
}

/// A borrowed position in a document, where `None` stands for `null`.
pub open spec fn value_at(o: Option<&JsonValue>) -> JsonValue {
    match o {
        Some(v) => *v,
        None => JsonValue::Null,
    }
}

/// `v.as_u64()`.
pub open spec fn as_u64(v: JsonValue) -> Option<u64> {
    match v {
        JsonValue::Number(n) => n.as_u64,
        _ => None,
    }
}

/// `v.as_bool()`.
pub open spec fn as_bool(v: JsonValue) -> Option<bool> {
    match v {
        JsonValue::Bool(b) => Some(b),
        _ => None,
    }
}

/// `v.as_str()`, by its characters.
pub open spec fn as_text(v: JsonValue) -> Option<Seq<char>> {
    match v {
        JsonValue::String(s) => Some(s@),
        _ => None,
    }
}

/// The index of the first member named `key`.
fn find_member(members: &Vec<(String, JsonValue)>, key: &String) -> (r: Option<usize>)
    ensures
        match r {
            Some(i) => i < members@.len() && member_value(members@, key@) == members@[i as int].1,
            None => member_value(members@, key@) == JsonValue::Null,
        },
{
    let mut i: usize = 0;
    assert(members@.skip(0) =~= members@);
    while i < members.len()
        invariant
            i <= members@.len(),
            member_value(members@, key@) == member_value(members@.skip(i as int), key@),
        decreases members@.len() - i,
    {
        let ghost rest = members@.skip(i as int);
        assert(rest.drop_first() =~= members@.skip(i + 1));
        if members[i].0 == *key {
            return Some(i);
        }
        i = i + 1;
    }
    assert(members@.skip(i as int).len() == 0);
    None
}

/// `v[key]` on a borrowed position.
pub fn get_key<'a>(v: Option<&'a JsonValue>, key: &str) -> (r: Option<&'a JsonValue>)
    ensures
        value_at(r) == at_key(value_at(v), key@),
{
    match v {
        Some(JsonValue::Object(members)) => {
            let k = String::from_str(key);
            match find_member(members, &k) {
                Some(i) => Some(&members[i].1),
                None => None,
            }
        },
        _ => None,
    }
}

/// `v[i]` on a borrowed position.
pub fn get_index<'a>(v: Option<&'a JsonValue>, i: usize) -> (r: Option<&'a JsonValue>)
    ensures
        value_at(r) == at_index(value_at(v), i as int),
{
    match v {
        Some(JsonValue::Array(items)) => {
            if i < items.len() {
                Some(&items[i])
            } else {
                None
            }
        },
        _ => None,
    }
}

/// `v.as_str()` on a borrowed position.
pub fn get_str<'a>(v: Option<&'a JsonValue>) -> (r: Option<&'a String>)
    ensures
        match r {
            Some(s) => as_text(value_at(v)) == Some(s@) && value_at(v) == JsonValue::String(*s),
            None => as_text(value_at(v)) is None,
        },
{
    match v {
        Some(JsonValue::String(s)) => Some(s),
        _ => None,
    }
}

/// `v.as_number()` on a borrowed position.
pub fn get_number<'a>(v: Option<&'a JsonValue>) -> (r: Option<&'a JsonNumber>)
    ensures
        match r {
            Some(n) => value_at(v) == JsonValue::Number(*n),
            None => !(value_at(v) is Number),
        },
{
    match v {
        Some(JsonValue::Number(n)) => Some(n),
        _ => None,
    }
}

/// `v.as_u64()` on a borrowed position.
pub fn get_u64(v: Option<&JsonValue>) -> (r: Option<u64>)
    ensures
        r == as_u64(value_at(v)),
{
    match v {
        Some(JsonValue::Number(n)) => n.as_u64,
        _ => None,
    }
}

/// `v.as_bool()` on a borrowed position.
pub fn get_bool(v: Option<&JsonValue>) -> (r: Option<bool>)
    ensures
        r == as_bool(value_at(v)),
{
    match v {
        Some(JsonValue::Bool(b)) => Some(*b),
        _ => None,
    }
}

} // verus!
