//! JSON documents as plain values. serde_json parses the bytes; the result is
//! carried over, one for one, into `JsonDoc`, which everything else reads.
use vstd::prelude::*;

verus! {

/// A JSON value.
#[derive(Debug)]
pub enum JsonDoc {
    Null,
    Bool(bool),
    /// A number, with its value when it is an integer in `0..=u64::MAX`.
    Number(Option<u64>),
    Str(String),
    Array(Vec<JsonDoc>),
    /// The members of an object (serde_json keeps keys unique).
    Object(Vec<(String, JsonDoc)>),
}

#[verifier::external_type_specification]
#[verifier::external_body]
pub struct ExValue(serde_json::Value);

/// What serde_json parses out of a byte string: the document, or `None` when
/// the bytes are not exactly one JSON value. It depends on the bytes alone.
pub uninterp spec fn json_doc_of(b: Seq<u8>) -> Option<JsonDoc>;

/// Relies on serde_json::from_slice::<Value>: the parsed document, carried
/// over variant by variant.
#[verifier::external_body]
pub fn parse_json(b: &[u8]) -> (r: Option<JsonDoc>)
    ensures
        r == json_doc_of(b@),
{
    serde_json::from_slice::<serde_json::Value>(b).ok().map(doc_from_value)
}

/// Relies on serde_json::Number::as_u64 for numbers; every other variant is
/// moved over as it is.
#[verifier::external_body]
fn doc_from_value(v: serde_json::Value) -> JsonDoc {
    match v {
        serde_json::Value::Null => JsonDoc::Null,
        serde_json::Value::Bool(b) => JsonDoc::Bool(b),
        serde_json::Value::Number(n) => JsonDoc::Number(n.as_u64()),
        serde_json::Value::String(s) => JsonDoc::Str(s),
        serde_json::Value::Array(a) => JsonDoc::Array(a.into_iter().map(doc_from_value).collect()),
        serde_json::Value::Object(m) => JsonDoc::Object(m.into_iter().map(|(k, v)| (k, doc_from_value(v))).collect()),
    }
}

/// The value of the first member named `key`.
pub open spec fn lookup(es: Seq<(String, JsonDoc)>, key: Seq<char>) -> Option<JsonDoc>
    decreases es.len(),
{
    if es.len() == 0 {
        None
    } else if es[0].0@ == key {
        Some(es[0].1)
    } else {
        lookup(es.drop_first(), key)
    }
}

/// The member `key` of an object; nothing for other values.
pub open spec fn field_of(d: Option<JsonDoc>, key: Seq<char>) -> Option<JsonDoc> {
    match d {
        Some(JsonDoc::Object(es)) => lookup(es@, key),
        _ => None,
    }
}

/// The text of a string value.
pub open spec fn str_of(d: Option<JsonDoc>) -> Option<Seq<char>> {
    match d {
        Some(JsonDoc::Str(s)) => Some(s@),
        _ => None,
    }
}

/// The value of a number that is a `u64`.
pub open spec fn u64_of(d: Option<JsonDoc>) -> Option<u64> {
    match d {
        Some(JsonDoc::Number(n)) => n,
        _ => None,
    }
}

/// The `u64` value of member `key`, or 0 when absent or of another kind.
pub open spec fn count_field(d: Option<JsonDoc>, key: Seq<char>) -> u64 {
    match u64_of(field_of(d, key)) {
        Some(n) => n,
        None => 0,
    }
}

impl JsonDoc {
    /// The member `key` of an object.
    pub fn get(&self, key: &str) -> (r: Option<&JsonDoc>)
        ensures
            (match r {
                Some(x) => field_of(Some(*self), key@) == Some(*x),
                None => field_of(Some(*self), key@) is None,
            }),
    {
        match self {
            JsonDoc::Object(es) => {
                let k = String::from_str(key);
                let mut i: usize = 0;
                assert(es@.subrange(0, es@.len() as int) =~= es@);
                while i < es.len()
                    invariant
                        i <= es@.len(),
                        k@ == key@,
                        field_of(Some(*self), key@) == lookup(es@, key@),
                        lookup(es@, key@) == lookup(es@.subrange(i as int, es@.len() as int), key@),
                    decreases es@.len() - i,
                {
                    assert(es@.subrange(i as int, es@.len() as int).drop_first() =~= es@.subrange(
                        i + 1,
                        es@.len() as int,
                    ));
                    assert(es@.subrange(i as int, es@.len() as int)[0] == es@[i as int]);
                    if es[i].0 == k {
                        assert(es@[i as int].0@ == key@);
                        assert(lookup(es@.subrange(i as int, es@.len() as int), key@) == Some(
                            es@[i as int].1,
                        ));
                        return Some(&es[i].1);
                    }
                    i = i + 1;
                }
                None
            },
            _ => None,
        }
    }

    /// Moves the member `key` out of an object.
    pub fn take(self, key: &str) -> (r: Option<JsonDoc>)
        ensures
            r == field_of(Some(self), key@),
    {
        match self {
            JsonDoc::Object(es) => {
                let ghost all = es@;
                let mut es = es;
                let k = String::from_str(key);
                let mut i: usize = 0;
                assert(all.subrange(0, all.len() as int) =~= all);
                while i < es.len()
                    invariant
                        es@ == all,
                        field_of(Some(self), key@) == lookup(all, key@),
                        i <= es@.len(),
                        k@ == key@,
                        lookup(all, key@) == lookup(all.subrange(i as int, all.len() as int), key@),
                    decreases es@.len() - i,
                {
                    assert(all.subrange(i as int, all.len() as int).drop_first() =~= all.subrange(
                        i + 1,
                        all.len() as int,
                    ));
                    assert(all.subrange(i as int, all.len() as int)[0] == all[i as int]);
                    if es[i].0 == k {
                        assert(all[i as int].0@ == key@);
                        assert(lookup(all.subrange(i as int, all.len() as int), key@) == Some(
                            all[i as int].1,
                        ));
                        let pair = es.swap_remove(i);
                        assert(pair == all[i as int]);
                        return Some(pair.1);
                    }
                    i = i + 1;
                }
                None
            },
            _ => None,
        }
    }

    /// The text of a string value.
    pub fn as_string(&self) -> (r: Option<String>)
        ensures
            (match r {
                Some(s) => str_of(Some(*self)) == Some(s@),
                None => str_of(Some(*self)) is None,
            }),
    {
        match self {
            JsonDoc::Str(s) => Some(s.clone()),
            _ => None,
        }
    }

    /// The value of a number that is a `u64`.
    pub fn as_u64(&self) -> (r: Option<u64>)
        ensures
            r == u64_of(Some(*self)),
    {
        match self {
            JsonDoc::Number(n) => *n,
            _ => None,
        }
    }

    /// The elements of an array.
    pub fn as_array(&self) -> (r: Option<&Vec<JsonDoc>>)
        ensures
            (match r {
                Some(v) => *self == JsonDoc::Array(*v),
                None => !(*self is Array),
            }),
    {
        match self {
            JsonDoc::Array(v) => Some(v),
            _ => None,
        }
    }
}

/// The text of member `key`, when it is a string.
pub fn string_field(d: Option<&JsonDoc>, key: &str) -> (r: Option<String>)
    ensures
        (match r {
            Some(s) => str_of(field_of(opt_doc(d), key@)) == Some(s@),
            None => str_of(field_of(opt_doc(d), key@)) is None,
        }),
{
    match d {
        Some(doc) => match doc.get(key) {
            Some(v) => v.as_string(),
            None => None,
        },
        None => None,
    }
}

/// The `u64` value of member `key`, or 0.
pub fn count_member(d: &JsonDoc, key: &str) -> (r: u64)
    ensures
        r == count_field(Some(*d), key@),
{
    match d.get(key) {
        Some(v) => match v.as_u64() {
            Some(n) => n,
            None => 0,
        },
        None => 0,
    }
}

pub open spec fn opt_doc(d: Option<&JsonDoc>) -> Option<JsonDoc> {
    match d {
        Some(x) => Some(*x),
        None => None,
    }
}

} // verus!
