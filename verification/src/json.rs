//! A JSON value the library can hold and reason about: what request bodies,
//! filters and API responses are made of.

use vstd::prelude::*;
use vstd::string::*;
use crate::text::str_eq;

verus! {

/// A JSON value. Numbers that fit `i64` are `Int`, other non-negative integers
/// that fit `u64` are `UInt`, and every other number keeps its JSON text in
/// `Decimal`. Object members keep their order.
#[derive(Debug, PartialEq)]
pub enum JsonValue {
    Null,
    Bool(bool),
    Int(i64),
    UInt(u64),
    Decimal(String),
    Str(String),
    Array(Vec<JsonValue>),
    Object(Vec<(String, JsonValue)>),
}

/// The mathematical value of a [`JsonValue`].
pub enum JsonView {
    Null,
    Bool(bool),
    Int(i64),
    UInt(u64),
    Decimal(Seq<char>),
    Str(Seq<char>),
    Array(Seq<JsonView>),
    Object(Seq<(Seq<char>, JsonView)>),
}

pub open spec fn json_view(v: JsonValue) -> JsonView
    decreases v,
{
    match v {
        JsonValue::Null => JsonView::Null,
        JsonValue::Bool(b) => JsonView::Bool(b),
        JsonValue::Int(i) => JsonView::Int(i),
        JsonValue::UInt(u) => JsonView::UInt(u),
        JsonValue::Decimal(d) => JsonView::Decimal(d@),
        JsonValue::Str(s) => JsonView::Str(s@),
        JsonValue::Array(items) => JsonView::Array(json_views(items@)),
        JsonValue::Object(members) => JsonView::Object(member_views(members@)),
    }
}

pub open spec fn json_views(s: Seq<JsonValue>) -> Seq<JsonView>
    decreases s,
{
    if s.len() == 0 {
        Seq::empty()
    } else {
        json_views(s.drop_last()).push(json_view(s.last()))
    }
}

pub open spec fn member_views(s: Seq<(String, JsonValue)>) -> Seq<(Seq<char>, JsonView)>
    decreases s,
{
    if s.len() == 0 {
        Seq::empty()
    } else {
        member_views(s.drop_last()).push((s.last().0@, json_view(s.last().1)))
    }
}

} // verus!

verus! {

/// The index of the first key equal to `k` at or after `i`, or `keys.len()`.
pub open spec fn first_key_index(keys: Seq<Seq<char>>, k: Seq<char>, i: int) -> int
    decreases keys.len() - i,
{
    if i >= keys.len() {
        keys.len() as int
    } else if keys[i] == k {
        i
    } else {
        first_key_index(keys, k, i + 1)
    }
}

pub proof fn lemma_first_key_index(keys: Seq<Seq<char>>, k: Seq<char>, i: int)
    requires
        0 <= i <= keys.len(),
    ensures
        i <= first_key_index(keys, k, i) <= keys.len(),
        first_key_index(keys, k, i) < keys.len() ==> keys[first_key_index(keys, k, i)] == k,
        forall|j: int| i <= j < first_key_index(keys, k, i) ==> keys[j] != k,
    decreases keys.len() - i,
{
    if i < keys.len() && keys[i] != k {
        lemma_first_key_index(keys, k, i + 1);
    }
}

pub proof fn lemma_first_key_index_unique(keys: Seq<Seq<char>>, k: Seq<char>, i: int, f: int)
    requires
        0 <= i <= f <= keys.len(),
        forall|j: int| i <= j < f ==> keys[j] != k,
        f == keys.len() || keys[f] == k,
    ensures
        first_key_index(keys, k, i) == f,
    decreases f - i,
{
    if i < f {
        lemma_first_key_index_unique(keys, k, i + 1, f);
    }
}

/// Appending a key leaves the first occurrence of every key where it was; a
/// key that was absent is found at the new position if it is the new key.
pub proof fn lemma_first_key_index_push(keys: Seq<Seq<char>>, k: Seq<char>, x: Seq<char>)
    ensures
        first_key_index(keys.push(x), k, 0) == if first_key_index(keys, k, 0) < keys.len() {
            first_key_index(keys, k, 0)
        } else if x == k {
            keys.len() as int
        } else {
            keys.len() + 1int
        },
{
    lemma_first_key_index(keys, k, 0);
    let f = first_key_index(keys, k, 0);
    let p = keys.push(x);
    if f < keys.len() {
        lemma_first_key_index_unique(p, k, 0, f);
    } else if x == k {
        lemma_first_key_index_unique(p, k, 0, keys.len() as int);
    } else {
        lemma_first_key_index_unique(p, k, 0, p.len() as int);
    }
}

/// The value of the first member named `k` of an object view.
pub open spec fn view_member(v: JsonView, k: Seq<char>) -> Option<JsonView> {
    match v {
        JsonView::Object(m) => {
            let keys = m.map_values(|e: (Seq<char>, JsonView)| e.0);
            let i = first_key_index(keys, k, 0);
            if i < m.len() {
                Some(m[i].1)
            } else {
                None
            }
        },
        _ => None,
    }
}

pub proof fn lemma_json_views(s: Seq<JsonValue>)
    ensures
        json_views(s).len() == s.len(),
        forall|i: int| 0 <= i < s.len() ==> #[trigger] json_views(s)[i] == json_view(s[i]),
    decreases s.len(),
{
    if s.len() > 0 {
        lemma_json_views(s.drop_last());
    }
}

pub proof fn lemma_member_views(s: Seq<(String, JsonValue)>)
    ensures
        member_views(s).len() == s.len(),
        forall|i: int|
            0 <= i < s.len() ==> #[trigger] member_views(s)[i] == (s[i].0@, json_view(s[i].1)),
    decreases s.len(),
{
    if s.len() > 0 {
        lemma_member_views(s.drop_last());
    }
}

/// The integer of a number view that fits `i64`.
pub open spec fn view_i64(v: JsonView) -> Option<i64> {
    match v {
        JsonView::Int(i) => Some(i),
        JsonView::UInt(u) => if u <= i64::MAX {
            Some(u as i64)
        } else {
            None
        },
        _ => None,
    }
}

/// The boolean of a boolean view.
pub open spec fn view_bool(v: JsonView) -> Option<bool> {
    match v {
        JsonView::Bool(b) => Some(b),
        _ => None,
    }
}

/// The string of a string view.
pub open spec fn view_str(v: JsonView) -> Option<Seq<char>> {
    match v {
        JsonView::Str(s) => Some(s),
        _ => None,
    }
}

/// The integer member `key` of an object view (`get(key).and_then(as_i64)`).
pub open spec fn member_i64(v: JsonView, key: Seq<char>) -> Option<i64> {
    match view_member(v, key) {
        Some(m) => view_i64(m),
        None => None,
    }
}

/// The string member `key` of an object view (`get(key).and_then(as_str)`).
pub open spec fn member_str(v: JsonView, key: Seq<char>) -> Option<Seq<char>> {
    match view_member(v, key) {
        Some(m) => view_str(m),
        None => None,
    }
}

impl JsonValue {
    /// A JSON number for an unsigned integer.
    pub fn from_u64(n: u64) -> (r: JsonValue)
        ensures
            n <= i64::MAX ==> json_view(r) == JsonView::Int(n as i64),
            n > i64::MAX ==> json_view(r) == JsonView::UInt(n),
    {
        if n <= i64::MAX as u64 {
            JsonValue::Int(n as i64)
        } else {
            JsonValue::UInt(n)
        }
    }

    /// A JSON string.
    pub fn string(s: &str) -> (r: JsonValue)
        ensures
            json_view(r) == JsonView::Str(s@),
    {
        JsonValue::Str(String::from_str(s))
    }

    /// The value of the first member named `key` of an object (`Value::get`);
    /// `None` for other values.
    pub fn get(&self, key: &str) -> (r: Option<&JsonValue>)
        ensures
            match r {
                Some(x) => view_member(json_view(*self), key@) == Some(json_view(*x)),
                None => view_member(json_view(*self), key@) is None,
            },
    {
        match self {
            JsonValue::Object(members) => {
                let ghost mv = member_views(members@);
                let ghost keys = mv.map_values(|e: (Seq<char>, JsonView)| e.0);
                proof {
                    lemma_member_views(members@);
                    lemma_first_key_index(keys, key@, 0);
                    assert(json_view(*self) == JsonView::Object(mv));
                }
                let mut i: usize = 0;
                while i < members.len()
                    invariant
                        i <= members.len(),
                        mv == member_views(members@),
                        json_view(*self) == JsonView::Object(mv),
                        mv.len() == members@.len(),
                        keys == mv.map_values(|e: (Seq<char>, JsonView)| e.0),
                        forall|j: int| 0 <= j < i ==> keys[j] != key@,
                    decreases members.len() - i,
                {
                    proof {
                        lemma_member_views(members@);
                        assert(keys[i as int] == mv[i as int].0);
                    }
                    if str_eq(members[i].0.as_str(), key) {
                        proof {
                            lemma_first_key_index_unique(keys, key@, 0, i as int);
                            assert(json_view(*self) == JsonView::Object(mv));
                            assert(mv[i as int].1 == json_view(members@[i as int].1));
                        }
                        return Some(&members[i].1);
                    }
                    i = i + 1;
                }
                proof {
                    lemma_first_key_index_unique(keys, key@, 0, keys.len() as int);
                    assert(json_view(*self) == JsonView::Object(mv));
                }
                None
            },
            _ => None,
        }
    }

    /// The string of a JSON string (`Value::as_str`).
    pub fn as_str(&self) -> (r: Option<&str>)
        ensures
            match r {
                Some(s) => json_view(*self) == JsonView::Str(s@),
                None => !(json_view(*self) is Str),
            },
    {
        match self {
            JsonValue::Str(s) => Some(s.as_str()),
            _ => None,
        }
    }

    /// The integer of a JSON number that fits `i64` (`Value::as_i64`).
    pub fn as_i64(&self) -> (r: Option<i64>)
        ensures
            r == view_i64(json_view(*self)),
    {
        match self {
            JsonValue::Int(i) => Some(*i),
            JsonValue::UInt(u) => if *u <= i64::MAX as u64 {
                Some(*u as i64)
            } else {
                None
            },
            _ => None,
        }
    }

    /// The boolean of a JSON boolean (`Value::as_bool`).
    pub fn as_bool(&self) -> (r: Option<bool>)
        ensures
            r == view_bool(json_view(*self)),
    {
        match self {
            JsonValue::Bool(b) => Some(*b),
            _ => None,
        }
    }

    /// The items of a JSON array (`Value::as_array`).
    pub fn as_array(&self) -> (r: Option<&Vec<JsonValue>>)
        ensures
            match r {
                Some(items) => json_view(*self) == JsonView::Array(json_views(items@)),
                None => !(json_view(*self) is Array),
            },
    {
        match self {
            JsonValue::Array(items) => Some(items),
            _ => None,
        }
    }

    /// `get(key).and_then(as_str)`.
    pub fn member_str(&self, key: &str) -> (r: Option<&str>)
        ensures
            match r {
                Some(t) => member_str(json_view(*self), key@) == Some(t@),
                None => member_str(json_view(*self), key@) is None,
            },
    {
        match self.get(key) {
            Some(m) => m.as_str(),
            None => None,
        }
    }

    /// `get(key).and_then(as_i64)`.
    pub fn member_i64(&self, key: &str) -> (r: Option<i64>)
        ensures
            r == member_i64(json_view(*self), key@),
    {
        match self.get(key) {
            Some(m) => m.as_i64(),
            None => None,
        }
    }
}

} // verus!
