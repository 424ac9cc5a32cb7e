//! A JSON object model: the values that the wire format is made of, and
//! access to the members of an object.

use vstd::prelude::*;

verus! {

/// A JSON value.
#[derive(Debug)]
pub enum JsonValue {
    Null,
    Bool(bool),
    /// A non-negative integer.
    Number(u64),
    /// Any other number, in its textual form.
    OtherNumber(String),
    Str(String),
    Array(Vec<JsonValue>),
    /// The members of an object, in order.
    Object(Vec<Member>),
}

/// A member of a JSON object.
#[derive(Debug)]
pub struct Member {
    pub key: String,
    pub value: JsonValue,
}

/// The value of the first member named `key` among `es`.
pub open spec fn lookup(es: Seq<Member>, key: Seq<char>) -> Option<JsonValue>
    decreases es.len(),
{
    if es.len() == 0 {
        None
    } else if es[0].key@ == key {
        Some(es[0].value)
    } else {
        lookup(es.drop_first(), key)
    }
}

/// The member `key` of `v`, where `v` is an object that has one.
pub open spec fn field(v: JsonValue, key: Seq<char>) -> Option<JsonValue> {
    match v {
        JsonValue::Object(es) => lookup(es@, key),
        _ => None,
    }
}

/// The string member `key` of `v`.
pub open spec fn str_at(v: JsonValue, key: Seq<char>) -> Option<Seq<char>> {
    match field(v, key) {
        Some(JsonValue::Str(s)) => Some(s@),
        _ => None,
    }
}

/// The integer member `key` of `v`.
pub open spec fn u64_at(v: JsonValue, key: Seq<char>) -> Option<u64> {
    match field(v, key) {
        Some(JsonValue::Number(n)) => Some(n),
        _ => None,
    }
}

/// The optional string member `key` of `v`: `Some(None)` where it is absent
/// or null, `None` where it is there but not a string.
pub open spec fn opt_str_at(v: JsonValue, key: Seq<char>) -> Option<Option<Seq<char>>> {
    match field(v, key) {
        None => Some(None),
        Some(JsonValue::Null) => Some(None),
        Some(JsonValue::Str(s)) => Some(Some(s@)),
        _ => None,
    }
}

/// The optional integer member `key` of `v`, in the manner of `opt_str_at`.
pub open spec fn opt_u64_at(v: JsonValue, key: Seq<char>) -> Option<Option<u64>> {
    match field(v, key) {
        None => Some(None),
        Some(JsonValue::Null) => Some(None),
        Some(JsonValue::Number(n)) => Some(Some(n)),
        _ => None,
    }
}

/// Where `es[i]` is the only member named `es[i].0`, a lookup of that name
/// finds it.
pub proof fn lemma_lookup_unique(es: Seq<Member>, i: int)
    requires
        0 <= i < es.len(),
        forall|j: int| 0 <= j < es.len() && j != i ==> (#[trigger] es[j]).key@ != es[i].key@,
    ensures
        lookup(es, es[i].key@) == Some(es[i].value),
    decreases es.len(),
{
    if i > 0 {
        let t = es.drop_first();
        assert forall|j: int| 0 <= j < t.len() && j != i - 1 implies (#[trigger] t[j]).key@ != t[i - 1].key@ by {
            assert(t[j] == es[j + 1]);
        }
        lemma_lookup_unique(t, i - 1);
    }
}

/// Where no member is named `key`, a lookup of `key` finds nothing.
pub proof fn lemma_lookup_absent(es: Seq<Member>, key: Seq<char>)
    requires
        forall|j: int| 0 <= j < es.len() ==> (#[trigger] es[j]).key@ != key,
    ensures
        lookup(es, key) is None,
    decreases es.len(),
{
    if es.len() > 0 {
        let t = es.drop_first();
        assert forall|j: int| 0 <= j < t.len() implies (#[trigger] t[j]).key@ != key by {
            assert(t[j] == es[j + 1]);
        }
        lemma_lookup_absent(t, key);
    }
}

/// The member `key` of `v`.
pub fn get<'a>(v: &'a JsonValue, key: &str) -> (r: Option<&'a JsonValue>)
    ensures
        match r {
            Some(x) => field(*v, key@) == Some(*x),
            None => field(*v, key@) is None,
        },
{
    match v {
        JsonValue::Object(es) => {
            let k = String::from_str(key);
            let mut i: usize = 0;
            assert(es@.subrange(0, es@.len() as int) =~= es@);
            while i < es.len()
                invariant
                    i <= es@.len(),
                    k@ == key@,
                    field(*v, key@) == lookup(es@, key@),
                    lookup(es@, key@) == lookup(es@.subrange(i as int, es@.len() as int), key@),
                decreases es@.len() - i,
            {
                let ghost rest = es@.subrange(i as int, es@.len() as int);
                assert(rest.drop_first() =~= es@.subrange(i + 1, es@.len() as int));
                assert(rest[0] == es@[i as int]);
                if es[i].key == k {
                    return Some(&es[i].value);
                }
                i = i + 1;
            }
            None
        },
        _ => None,
    }
}

/// The string member `key` of `v`.
pub fn get_str(v: &JsonValue, key: &str) -> (r: Option<String>)
    ensures
        match r {
            Some(s) => str_at(*v, key@) == Some(s@),
            None => str_at(*v, key@) is None,
        },
{
    match get(v, key) {
        Some(JsonValue::Str(s)) => Some(s.clone()),
        _ => None,
    }
}

/// The integer member `key` of `v`.
pub fn get_u64(v: &JsonValue, key: &str) -> (r: Option<u64>)
    ensures
        r == u64_at(*v, key@),
{
    match get(v, key) {
        Some(JsonValue::Number(n)) => Some(*n),
        _ => None,
    }
}

/// The optional string member `key` of `v`.
pub fn get_opt_str(v: &JsonValue, key: &str) -> (r: Option<Option<String>>)
    ensures
        match r {
            Some(Some(s)) => opt_str_at(*v, key@) == Some(Some(s@)),
            Some(None) => opt_str_at(*v, key@) == Some(None::<Seq<char>>),
            None => opt_str_at(*v, key@) is None,
        },
{
    match get(v, key) {
        None => Some(None),
        Some(JsonValue::Null) => Some(None),
        Some(JsonValue::Str(s)) => Some(Some(s.clone())),
        _ => None,
    }
}

/// The optional integer member `key` of `v`.
pub fn get_opt_u64(v: &JsonValue, key: &str) -> (r: Option<Option<u64>>)
    ensures
        r == opt_u64_at(*v, key@),
{
    match get(v, key) {
        None => Some(None),
        Some(JsonValue::Null) => Some(None),
        Some(JsonValue::Number(n)) => Some(Some(*n)),
        _ => None,
    }
}

/// A string value holding a copy of `s`.
pub fn str_value(s: &String) -> (r: JsonValue)
    ensures
        r matches JsonValue::Str(t) && t@ == s@,
{
    JsonValue::Str(s.clone())
}

} // verus!
