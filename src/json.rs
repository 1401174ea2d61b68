//! A JSON document held as plain values.
use vstd::prelude::*;

verus! {

/// A JSON value. Numbers are kept as their decimal text; an object keeps
/// its members in document order.
#[derive(Debug)]
pub enum JsonValue {
    Null,
    Bool(bool),
    Number(String),
    Str(String),
    Array(Vec<JsonValue>),
    Object(Vec<(String, JsonValue)>),
}

/// The value of the first member named `key` among `members`.
pub open spec fn lookup(members: Seq<(String, JsonValue)>, key: Seq<char>) -> Option<JsonValue>
    decreases members.len(),
{
    if members.len() == 0 {
        None
    } else if members[0].0@ == key {
        Some(members[0].1)
    } else {
        lookup(members.drop_first(), key)
    }
}

/// Member `key` of an object; nothing for any other kind of value.
pub open spec fn field(v: JsonValue, key: Seq<char>) -> Option<JsonValue> {
    match v {
        JsonValue::Object(members) => lookup(members@, key),
        _ => None,
    }
}

/// Element `i` of an array; `Null` when `v` is no array or `i` is out of bounds.
pub open spec fn element(v: JsonValue, i: int) -> JsonValue {
    match v {
        JsonValue::Array(items) => if 0 <= i < items@.len() {
            items@[i]
        } else {
            JsonValue::Null
        },
        _ => JsonValue::Null,
    }
}

/// The text of a string value.
pub open spec fn text(v: JsonValue) -> Option<Seq<char>> {
    match v {
        JsonValue::Str(s) => Some(s@),
        _ => None,
    }
}

impl JsonValue {
    /// Member `key` of this value, when it is an object that has one.
    pub fn get(&self, key: &str) -> (r: Option<&JsonValue>)
        ensures
            r matches Some(v) ==> field(*self, key@) == Some(*v),
            r is None ==> field(*self, key@) is None,
    {
        match self {
            JsonValue::Object(members) => {
                let wanted = key.to_owned();
                let mut i: usize = 0;
                assert(members@.subrange(0, members@.len() as int) =~= members@);
                while i < members.len()
                    invariant
                        0 <= i <= members@.len(),
                        wanted@ == key@,
                        field(*self, key@) == lookup(members@, key@),
                        lookup(members@, key@) == lookup(members@.subrange(i as int, members@.len() as int), key@),
                    decreases members@.len() - i,
                {
                    let ghost rest = members@.subrange(i as int, members@.len() as int);
                    assert(rest.drop_first() =~= members@.subrange(i + 1, members@.len() as int));
                    assert(rest[0] == members@[i as int]);
                    if members[i].0 == wanted {
                        assert(lookup(rest, key@) == Some(members@[i as int].1));
                        return Some(&members[i].1);
                    }
                    i = i + 1;
                }
                assert(members@.subrange(i as int, members@.len() as int).len() == 0);
                None
            },
            _ => None,
        }
    }

    /// Element `i` of this value, `Null` when it is no array or `i` is out of bounds.
    pub fn at(&self, i: usize) -> (r: &JsonValue)
        ensures
            *r == element(*self, i as int),
    {
        match self {
            JsonValue::Array(items) => {
                if i < items.len() {
                    &items[i]
                } else {
                    &JsonValue::Null
                }
            },
            _ => &JsonValue::Null,
        }
    }

    /// The text of this value, when it is a string.
    pub fn as_str(&self) -> (r: Option<&str>)
        ensures
            r matches Some(s) ==> text(*self) == Some(s@),
            r is None ==> text(*self) is None,
    {
        match self {
            JsonValue::Str(s) => Some(s.as_str()),
            _ => None,
        }
    }
}

} // verus!
