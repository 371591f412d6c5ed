//! A JSON document as plain values, with the lookups that the GitHub
//! responses are read through.
use vstd::prelude::*;
use crate::text::str_eq;

verus! {

/// A JSON number: a non-negative integer, a negative integer, or any other
/// number, kept as its decimal text.
#[derive(Debug)]
pub enum JsonNumber {
    PosInt(u64),
    NegInt(i64),
    Float(String),
}

/// A JSON value. Object members keep the order in which they were read; a
/// document read from text names each member once.
#[derive(Debug)]
pub enum JsonValue {
    Null,
    Bool(bool),
    Number(JsonNumber),
    Str(String),
    Array(Vec<JsonValue>),
    Object(Vec<(String, JsonValue)>),
}

/// The value of the first member named `key`, if any.
pub open spec fn lookup(entries: Seq<(String, JsonValue)>, key: Seq<char>) -> Option<JsonValue>
    decreases entries.len(),
{
    if entries.len() == 0 {
        None
    } else if entries[0].0@ == key {
        Some(entries[0].1)
    } else {
        lookup(entries.drop_first(), key)
    }
}

/// The member found for `key` is the first entry named `key`.
pub proof fn lemma_lookup_first(entries: Seq<(String, JsonValue)>, key: Seq<char>, i: int)
    requires
        0 <= i < entries.len(),
        entries[i].0@ == key,
        forall|j: int| 0 <= j < i ==> entries[j].0@ != key,
    ensures
        lookup(entries, key) == Some(entries[i].1),
    decreases i,
{
    if i > 0 {
        assert(entries[0].0@ != key);
        assert forall|j: int| 0 <= j < i - 1 implies entries.drop_first()[j].0@ != key by {
            assert(entries.drop_first()[j] == entries[j + 1]);
        }
        lemma_lookup_first(entries.drop_first(), key, i - 1);
    }
}

/// No member is found for a name that no entry has.
pub proof fn lemma_lookup_absent(entries: Seq<(String, JsonValue)>, key: Seq<char>)
    requires
        forall|j: int| 0 <= j < entries.len() ==> entries[j].0@ != key,
    ensures
        lookup(entries, key) is None,
    decreases entries.len(),
{
    if entries.len() > 0 {
        assert(entries[0].0@ != key);
        assert forall|j: int| 0 <= j < entries.drop_first().len() implies entries.drop_first()[j].0@ != key by {
            assert(entries.drop_first()[j] == entries[j + 1]);
        }
        lemma_lookup_absent(entries.drop_first(), key);
    }
}

/// The member `key` of `v`, when `v` is an object that has one.
pub open spec fn field(v: JsonValue, key: Seq<char>) -> Option<JsonValue> {
    match v {
        JsonValue::Object(entries) => lookup(entries@, key),
        _ => None,
    }
}

/// The text of `v`, when it is a string.
pub open spec fn as_str(v: Option<JsonValue>) -> Option<Seq<char>> {
    match v {
        Some(JsonValue::Str(s)) => Some(s@),
        _ => None,
    }
}

/// The value of `v` as an `i64`, when it is an integer in that range.
pub open spec fn as_i64(v: Option<JsonValue>) -> Option<i64> {
    match v {
        Some(JsonValue::Number(JsonNumber::PosInt(n))) => if n <= i64::MAX {
            Some(n as i64)
        } else {
            None
        },
        Some(JsonValue::Number(JsonNumber::NegInt(n))) => Some(n),
        _ => None,
    }
}

/// The value of `v` as a `u64`, when it is a non-negative integer.
pub open spec fn as_u64(v: Option<JsonValue>) -> Option<u64> {
    match v {
        Some(JsonValue::Number(JsonNumber::PosInt(n))) => Some(n),
        _ => None,
    }
}

/// The elements of `v`, when it is an array.
pub open spec fn as_array(v: Option<JsonValue>) -> Option<Seq<JsonValue>> {
    match v {
        Some(JsonValue::Array(items)) => Some(items@),
        _ => None,
    }
}

/// `v[key]` read as text, or `default` when it is missing or not a string.
pub open spec fn str_or(v: JsonValue, key: Seq<char>, default: Seq<char>) -> Seq<char> {
    match as_str(field(v, key)) {
        Some(s) => s,
        None => default,
    }
}

/// `v[key]` read as an `i64`, or `default`.
pub open spec fn i64_or(v: JsonValue, key: Seq<char>, default: i64) -> i64 {
    match as_i64(field(v, key)) {
        Some(n) => n,
        None => default,
    }
}

/// `v[key]` read as a `u64`, or `default`.
pub open spec fn u64_or(v: JsonValue, key: Seq<char>, default: u64) -> u64 {
    match as_u64(field(v, key)) {
        Some(n) => n,
        None => default,
    }
}

/// Views of optional text.
pub open spec fn opt_view(o: Option<String>) -> Option<Seq<char>> {
    match o {
        Some(s) => Some(s@),
        None => None,
    }
}

impl JsonValue {
    /// Member `key` of an object (`None` for a missing member or a value
    /// that is not an object).
    pub fn get(&self, key: &str) -> (r: Option<&JsonValue>)
        ensures
            match r {
                Some(x) => field(*self, key@) == Some(*x),
                None => field(*self, key@) is None,
            },
    {
        match self {
            JsonValue::Object(entries) => {
                let mut i: usize = 0;
                assert(entries@.skip(0) =~= entries@);
                while i < entries.len()
                    invariant
                        *self == JsonValue::Object(*entries),
                        i <= entries@.len(),
                        lookup(entries@, key@) == lookup(entries@.skip(i as int), key@),
                    decreases entries@.len() - i,
                {
                    assert(entries@.skip(i as int).drop_first() == entries@.skip(i + 1));
                    assert(entries@.skip(i as int)[0] == entries@[i as int]);
                    if str_eq(entries[i].0.as_str(), key) {
                        assert(entries@.skip(i as int).len() > 0);
                        assert(lookup(entries@.skip(i as int), key@) == Some(entries@[i as int].1));
                        return Some(&entries[i].1);
                    }
                    i = i + 1;
                }
                None
            },
            _ => None,
        }
    }

    /// `self[key]` as text.
    pub fn str_field(&self, key: &str) -> (r: Option<&str>)
        ensures
            match r {
                Some(s) => as_str(field(*self, key@)) == Some(s@),
                None => as_str(field(*self, key@)) is None,
            },
    {
        match self.get(key) {
            Some(JsonValue::Str(s)) => Some(s.as_str()),
            _ => None,
        }
    }

    /// `self[key]` as text, or `default`.
    pub fn str_field_or(&self, key: &str, default: &str) -> (r: String)
        ensures
            r@ == str_or(*self, key@, default@),
    {
        match self.str_field(key) {
            Some(s) => s.to_string(),
            None => default.to_string(),
        }
    }

    /// `self[key]` as an owned optional string.
    pub fn opt_str_field(&self, key: &str) -> (r: Option<String>)
        ensures
            opt_view(r) == as_str(field(*self, key@)),
    {
        match self.str_field(key) {
            Some(s) => Some(s.to_string()),
            None => None,
        }
    }

    /// `self[key]` as an `i64`, or `default`.
    pub fn i64_field_or(&self, key: &str, default: i64) -> (r: i64)
        ensures
            r == i64_or(*self, key@, default),
    {
        match self.get(key) {
            Some(JsonValue::Number(JsonNumber::PosInt(n))) => {
                if *n <= 0x7fff_ffff_ffff_ffffu64 {
                    *n as i64
                } else {
                    default
                }
            },
            Some(JsonValue::Number(JsonNumber::NegInt(n))) => *n,
            _ => default,
        }
    }

    /// `self[key]` as a `u64`, or `default`.
    pub fn u64_field_or(&self, key: &str, default: u64) -> (r: u64)
        ensures
            r == u64_or(*self, key@, default),
    {
        match self.get(key) {
            Some(JsonValue::Number(JsonNumber::PosInt(n))) => *n,
            _ => default,
        }
    }

    /// Takes member `key` out of an object when it is an array.
    pub fn into_array_field(self, key: &str) -> (r: Option<Vec<JsonValue>>)
        ensures
            match r {
                Some(items) => as_array(field(self, key@)) == Some(items@),
                None => as_array(field(self, key@)) is None,
            },
    {
        let ghost whole = self;
        match self {
            JsonValue::Object(fields) => {
                let mut entries = fields;
                let ghost orig = entries@;
                let mut i: usize = 0;
                assert(entries@.skip(0) =~= entries@);
                while i < entries.len()
                    invariant
                        entries@ == orig,
                        whole == self,
                        whole == JsonValue::Object(entries),
                        i <= entries@.len(),
                        lookup(entries@, key@) == lookup(entries@.skip(i as int), key@),
                    decreases entries@.len() - i,
                {
                    assert(entries@.skip(i as int).drop_first() == entries@.skip(i + 1));
                    assert(entries@.skip(i as int)[0] == entries@[i as int]);
                    if str_eq(entries[i].0.as_str(), key) {
                        assert(entries@.skip(i as int).len() > 0);
                        assert(lookup(entries@.skip(i as int), key@) == Some(orig[i as int].1));
                        assert(field(whole, key@) == Some(orig[i as int].1));
                        let (_, v) = entries.remove(i);
                        assert(v == orig[i as int].1);
                        return match v {
                            JsonValue::Array(items) => Some(items),
                            _ => None,
                        };
                    }
                    i = i + 1;
                }
                None
            },
            _ => None,
        }
    }

    /// `self[key]` as an array.
    pub fn array_field(&self, key: &str) -> (r: Option<&Vec<JsonValue>>)
        ensures
            match r {
                Some(items) => as_array(field(*self, key@)) == Some(items@),
                None => as_array(field(*self, key@)) is None,
            },
    {
        match self.get(key) {
            Some(JsonValue::Array(items)) => Some(items),
            _ => None,
        }
    }
}

} // verus!
