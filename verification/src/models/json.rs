//! A JSON document as the package endpoint answers it: the values that the
//! package parsers read, held as plain data.

use vstd::prelude::*;
use crate::models::strmap::{lookup, lemma_index_of};
use crate::utils::text::str_eq;

verus! {

/// A JSON number, by the two readings the parsers make of it: as an
/// unsigned integer, when it is one, and as a double, held as the bit
/// pattern of the `f64` (`f64::to_bits`), when it has one.
#[derive(Clone, Copy, Debug, PartialEq, Eq, Structural)]
pub struct JsonNumber {
    pub as_u64: Option<u64>,
    pub as_f64_bits: Option<u64>,
}

/// A JSON value. An object keeps its members in order; a key names the
/// first member that has it.
#[derive(Debug)]
pub enum JsonValue {
    Null,
    Bool(bool),
    Number(JsonNumber),
    String(String),
    Array(Vec<JsonValue>),
    Object(Vec<(String, JsonValue)>),
}

impl JsonValue {
    /// The member `key` of an object; nothing for any other value.
    pub open spec fn member(self, key: Seq<char>) -> Option<JsonValue> {
        match self {
            JsonValue::Object(entries) => lookup(entries@, key),
            _ => None,
        }
    }

    /// The characters of a string value.
    pub open spec fn text(self) -> Option<Seq<char>> {
        match self {
            JsonValue::String(s) => Some(s@),
            _ => None,
        }
    }

    /// The member `key`, when it is a string.
    pub open spec fn text_member(self, key: Seq<char>) -> Option<Seq<char>> {
        match self.member(key) {
            Some(v) => v.text(),
            None => None,
        }
    }

    /// The member `key`, when it is a boolean.
    pub open spec fn bool_member(self, key: Seq<char>) -> Option<bool> {
        match self.member(key) {
            Some(JsonValue::Bool(b)) => Some(b),
            _ => None,
        }
    }

    /// The member `key`, when it is a number that is an unsigned integer.
    pub open spec fn u64_member(self, key: Seq<char>) -> Option<u64> {
        match self.member(key) {
            Some(JsonValue::Number(n)) => n.as_u64,
            _ => None,
        }
    }

    /// The member `key`, when it is a number with a double value (its bits).
    pub open spec fn f64_member(self, key: Seq<char>) -> Option<u64> {
        match self.member(key) {
            Some(JsonValue::Number(n)) => n.as_f64_bits,
            _ => None,
        }
    }

    /// The elements of the member `key`, when it is an array.
    pub open spec fn array_member(self, key: Seq<char>) -> Option<Seq<JsonValue>> {
        match self.member(key) {
            Some(JsonValue::Array(items)) => Some(items@),
            _ => None,
        }
    }

    /// The member `key` of an object.
    pub fn get(&self, key: &str) -> (r: Option<&JsonValue>)
        ensures
            match r {
                Some(v) => self.member(key@) == Some(*v),
                None => self.member(key@).is_none(),
            },
    {
        match self {
            JsonValue::Object(entries) => {
                proof {
                    lemma_index_of(entries@, key@);
                }
                let mut i: usize = 0;
                while i < entries.len()
                    invariant
                        i <= entries@.len(),
                        self.member(key@) == lookup(entries@, key@),
                        forall|j: int| 0 <= j < i ==> entries@[j].0@ != key@,
                        match crate::models::strmap::index_of(entries@, key@) {
                            Some(k) => 0 <= k < entries@.len() && entries@[k].0@ == key@
                                && lookup(entries@, key@) == Some(entries@[k].1)
                                && forall|j: int| 0 <= j < k ==> entries@[j].0@ != key@,
                            None => lookup(entries@, key@).is_none()
                                && forall|j: int| 0 <= j < entries@.len() ==> entries@[j].0@ != key@,
                        },
                    decreases entries@.len() - i,
                {
                    if str_eq(entries[i].0.as_str(), key) {
                        proof {
                            let k = crate::models::strmap::index_of(entries@, key@).unwrap();
                            assert(k == i as int);
                        }
                        return Some(&entries[i].1);
                    }
                    i += 1;
                }
                None
            },
            _ => None,
        }
    }

    /// A string value.
    pub fn as_str(&self) -> (r: Option<&str>)
        ensures
            match r {
                Some(s) => self.text() == Some(s@),
                None => self.text().is_none(),
            },
    {
        match self {
            JsonValue::String(s) => Some(s.as_str()),
            _ => None,
        }
    }

    /// A boolean value.
    pub fn as_bool(&self) -> (r: Option<bool>)
        ensures
            r == match *self {
                JsonValue::Bool(b) => Some(b),
                _ => None,
            },
    {
        match self {
            JsonValue::Bool(b) => Some(*b),
            _ => None,
        }
    }

    /// A number that is an unsigned integer.
    pub fn as_u64(&self) -> (r: Option<u64>)
        ensures
            r == match *self {
                JsonValue::Number(n) => n.as_u64,
                _ => None,
            },
    {
        match self {
            JsonValue::Number(n) => n.as_u64,
            _ => None,
        }
    }

    /// The bits of a number's double value.
    pub fn as_f64_bits(&self) -> (r: Option<u64>)
        ensures
            r == match *self {
                JsonValue::Number(n) => n.as_f64_bits,
                _ => None,
            },
    {
        match self {
            JsonValue::Number(n) => n.as_f64_bits,
            _ => None,
        }
    }

    /// The elements of an array.
    pub fn as_array(&self) -> (r: Option<&Vec<JsonValue>>)
        ensures
            match r {
                Some(items) => *self == JsonValue::Array(*items),
                None => !(*self is Array),
            },
    {
        match self {
            JsonValue::Array(items) => Some(items),
            _ => None,
        }
    }

    /// The member `key`, when it is a string.
    pub fn str_member(&self, key: &str) -> (r: Option<&str>)
        ensures
            match r {
                Some(s) => self.text_member(key@) == Some(s@),
                None => self.text_member(key@).is_none(),
            },
    {
        match self.get(key) {
            Some(v) => v.as_str(),
            None => None,
        }
    }
}

} // verus!
