//! A JSON document as the reasoning service's wire format carries it.
//!
//! Numbers that fit a signed or unsigned 64-bit integer are held exactly;
//! any other number is held as its decimal text.
use crate::text::same_text;
use vstd::prelude::*;

verus! {

/// A JSON value. An object keeps its entries in order, with unique keys.
#[derive(Debug)]
pub enum JsonValue {
    Null,
    Bool(bool),
    Int(i64),
    UInt(u64),
    Float(String),
    Str(String),
    Array(Vec<JsonValue>),
    Object(Vec<JsonEntry>),
}

/// A named member of a JSON object.
#[derive(Debug)]
pub struct JsonEntry {
    pub key: String,
    pub value: JsonValue,
}

/// The value of the first entry named `key`.
pub open spec fn lookup(entries: Seq<JsonEntry>, key: Seq<char>) -> Option<JsonValue>
    decreases entries.len(),
{
    if entries.len() == 0 {
        None
    } else if entries[0].key@ == key {
        Some(entries[0].value)
    } else {
        lookup(entries.drop_first(), key)
    }
}

impl JsonValue {
    /// The member `key` of an object; nothing for any other value.
    pub open spec fn field(self, key: Seq<char>) -> Option<JsonValue> {
        match self {
            JsonValue::Object(entries) => lookup(entries@, key),
            _ => None,
        }
    }

    /// The text of a string value.
    pub open spec fn text(self) -> Option<Seq<char>> {
        match self {
            JsonValue::Str(s) => Some(s@),
            _ => None,
        }
    }

    /// A number that fits a signed 64-bit integer.
    pub open spec fn integer(self) -> Option<i64> {
        match self {
            JsonValue::Int(i) => Some(i),
            JsonValue::UInt(u) => if u <= i64::MAX { Some(u as i64) } else { None },
            _ => None,
        }
    }

    /// A boolean value.
    pub open spec fn boolean(self) -> Option<bool> {
        match self {
            JsonValue::Bool(b) => Some(b),
            _ => None,
        }
    }

    /// The elements of an array.
    pub open spec fn items(self) -> Option<Seq<JsonValue>> {
        match self {
            JsonValue::Array(v) => Some(v@),
            _ => None,
        }
    }

    /// The member `key` of an object.
    pub fn get(&self, key: &str) -> (r: Option<&JsonValue>)
        ensures
            match r {
                Some(v) => self.field(key@) == Some(*v),
                None => self.field(key@) is None,
            },
    {
        match self {
            JsonValue::Object(entries) => {
                let n = entries.len();
                let mut i: usize = 0;
                assert(entries@.subrange(0, n as int) =~= entries@);
                while i < n
                    invariant
                        n == entries@.len(),
                        i <= n,
                        self.field(key@) == lookup(entries@, key@),
                        lookup(entries@, key@) == lookup(entries@.subrange(i as int, n as int), key@),
                    decreases n - i,
                {
                    assert(entries@.subrange(i as int, n as int).drop_first() =~= entries@.subrange(
                        i + 1,
                        n as int,
                    ));
                    assert(entries@.subrange(i as int, n as int)[0] == entries@[i as int]);
                    if same_text(entries[i].key.as_str(), key) {
                        assert(lookup(entries@.subrange(i as int, n as int), key@) == Some(entries@[i as int].value));
                        return Some(&entries[i].value);
                    }
                    i = i + 1;
                }
                None
            },
            _ => None,
        }
    }

    /// Moves the member `key` out of an object.
    pub fn take(self, key: &str) -> (r: Option<JsonValue>)
        ensures
            r == self.field(key@),
    {
        match self {
            JsonValue::Object(members) => {
                let mut entries = members;
                let ghost whole = entries@;
                let n = entries.len();
                let mut i: usize = 0;
                assert(whole.subrange(0, n as int) =~= whole);
                while i < n
                    invariant
                        n == entries@.len(),
                        entries@ == whole,
                        self.field(key@) == lookup(whole, key@),
                        i <= n,
                        lookup(whole, key@) == lookup(whole.subrange(i as int, n as int), key@),
                    decreases n - i,
                {
                    assert(whole.subrange(i as int, n as int).drop_first() =~= whole.subrange(i + 1, n as int));
                    assert(whole.subrange(i as int, n as int)[0] == whole[i as int]);
                    if same_text(entries[i].key.as_str(), key) {
                        assert(lookup(whole.subrange(i as int, n as int), key@) == Some(whole[i as int].value));
                        let entry = entries.remove(i);
                        return Some(entry.value);
                    }
                    i = i + 1;
                }
                None
            },
            _ => None,
        }
    }

    /// The text of a string value.
    pub fn as_str(&self) -> (r: Option<&String>)
        ensures
            match r {
                Some(s) => self.text() == Some(s@) && *self == JsonValue::Str(*s),
                None => self.text() is None,
            },
    {
        match self {
            JsonValue::Str(s) => Some(s),
            _ => None,
        }
    }

    /// A number that fits a signed 64-bit integer.
    pub fn as_i64(&self) -> (r: Option<i64>)
        ensures
            r == self.integer(),
    {
        match self {
            JsonValue::Int(i) => Some(*i),
            JsonValue::UInt(u) => if *u <= i64::MAX as u64 { Some(*u as i64) } else { None },
            _ => None,
        }
    }

    /// A boolean value.
    pub fn as_bool(&self) -> (r: Option<bool>)
        ensures
            r == self.boolean(),
    {
        match self {
            JsonValue::Bool(b) => Some(*b),
            _ => None,
        }
    }

    /// The elements of an array.
    pub fn as_array(&self) -> (r: Option<&Vec<JsonValue>>)
        ensures
            match r {
                Some(v) => self.items() == Some(v@),
                None => self.items() is None,
            },
    {
        match self {
            JsonValue::Array(v) => Some(v),
            _ => None,
        }
    }
}

} // verus!
