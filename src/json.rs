//! A JSON document model: the values that schema documents are made of.

use vstd::prelude::*;
use crate::text::str_eq;

verus! {

/// A JSON value. Object members keep their order; a key that occurs twice
/// is found at its first occurrence.
#[derive(Debug)]
pub enum Json {
    Null,
    Bool(bool),
    /// A number that is a non-negative integer within `u64`.
    UInt(u64),
    /// Any other number (negative, fractional or too large).
    OtherNumber,
    Str(String),
    Array(Vec<Json>),
    Object(Vec<(String, Json)>),
}

/// The value of the first member named `k` among `es`.
pub open spec fn entries_get(es: Seq<(String, Json)>, k: Seq<char>) -> Option<Json>
    decreases es.len(),
{
    if es.len() == 0 {
        None
    } else if es[0].0@ == k {
        Some(es[0].1)
    } else {
        entries_get(es.drop_first(), k)
    }
}

/// The member `k` of an object (`None` for a missing member or a non-object).
pub open spec fn field(j: Json, k: Seq<char>) -> Option<Json> {
    match j {
        Json::Object(es) => entries_get(es@, k),
        _ => None,
    }
}

/// The text of a string value.
pub open spec fn str_of(j: Option<Json>) -> Option<Seq<char>> {
    match j {
        Some(Json::Str(s)) => Some(s@),
        _ => None,
    }
}

/// The elements of an array value.
pub open spec fn array_of(j: Option<Json>) -> Option<Seq<Json>> {
    match j {
        Some(Json::Array(v)) => Some(v@),
        _ => None,
    }
}

/// The member `k`, when it is a string.
pub open spec fn str_field(j: Json, k: Seq<char>) -> Option<Seq<char>> {
    str_of(field(j, k))
}

/// The member `k`, when it is an array.
pub open spec fn array_field(j: Json, k: Seq<char>) -> Option<Seq<Json>> {
    array_of(field(j, k))
}

/// The member `k`, when it is a non-negative integer within `u64`.
pub open spec fn u64_field(j: Json, k: Seq<char>) -> Option<u64> {
    match field(j, k) {
        Some(Json::UInt(n)) => Some(n),
        _ => None,
    }
}

/// The member `k`, when it is a boolean.
pub open spec fn bool_field(j: Json, k: Seq<char>) -> Option<bool> {
    match field(j, k) {
        Some(Json::Bool(b)) => Some(b),
        _ => None,
    }
}

/// The strings among the elements of `vs`, in order.
pub open spec fn strings_in(vs: Seq<Json>) -> Seq<Seq<char>>
    decreases vs.len(),
{
    if vs.len() == 0 {
        Seq::empty()
    } else {
        let rest = strings_in(vs.drop_last());
        match vs.last() {
            Json::Str(s) => rest.push(s@),
            _ => rest,
        }
    }
}

impl Json {
    /// The member `key` of an object.
    pub fn get(&self, key: &str) -> (r: Option<&Json>)
        ensures
            r.is_some() == field(*self, key@).is_some(),
            r.is_some() ==> field(*self, key@) == Some(*r.unwrap()),
    {
        match self {
            Json::Object(es) => {
                let mut i: usize = 0;
                assert(es@.subrange(0, es@.len() as int) =~= es@);
                while i < es.len()
                    invariant
                        i <= es@.len(),
                        field(*self, key@) == entries_get(es@.subrange(i as int, es@.len() as int), key@),
                    decreases es.len() - i,
                {
                    let ghost rest = es@.subrange(i as int, es@.len() as int);
                    assert(rest[0] == es@[i as int]);
                    let entry = &es[i];
                    if str_eq(entry.0.as_str(), key) {
                        return Some(&entry.1);
                    }
                    assert(rest.drop_first() =~= es@.subrange(i + 1, es@.len() as int));
                    i = i + 1;
                }
                None
            },
            _ => None,
        }
    }

    /// The text of a string value.
    pub fn as_str(&self) -> (r: Option<&str>)
        ensures
            r.is_some() == (*self is Str),
            r.is_some() ==> str_of(Some(*self)) == Some(r.unwrap()@),
    {
        match self {
            Json::Str(s) => Some(s.as_str()),
            _ => None,
        }
    }

    /// The elements of an array value.
    pub fn as_array(&self) -> (r: Option<&Vec<Json>>)
        ensures
            r.is_some() == (*self is Array),
            r.is_some() ==> array_of(Some(*self)) == Some(r.unwrap()@),
    {
        match self {
            Json::Array(v) => Some(v),
            _ => None,
        }
    }

    /// The member `key`, when it is a string.
    pub fn str_member(&self, key: &str) -> (r: Option<&str>)
        ensures
            r.is_some() == str_field(*self, key@).is_some(),
            r.is_some() ==> str_field(*self, key@) == Some(r.unwrap()@),
    {
        match self.get(key) {
            Some(v) => v.as_str(),
            None => None,
        }
    }

    /// The member `key`, when it is an array.
    pub fn array_member(&self, key: &str) -> (r: Option<&Vec<Json>>)
        ensures
            r.is_some() == array_field(*self, key@).is_some(),
            r.is_some() ==> array_field(*self, key@) == Some(r.unwrap()@),
    {
        match self.get(key) {
            Some(v) => v.as_array(),
            None => None,
        }
    }

    /// The member `key`, when it is a non-negative integer within `u64`.
    pub fn u64_member(&self, key: &str) -> (r: Option<u64>)
        ensures
            r == u64_field(*self, key@),
    {
        match self.get(key) {
            Some(Json::UInt(n)) => Some(*n),
            _ => None,
        }
    }

    /// The member `key`, when it is a boolean.
    pub fn bool_member(&self, key: &str) -> (r: Option<bool>)
        ensures
            r == bool_field(*self, key@),
    {
        match self.get(key) {
            Some(Json::Bool(b)) => Some(*b),
            _ => None,
        }
    }
}

/// Copies out the strings among `vs`, in order, skipping other values.
pub fn collect_strings(vs: &Vec<Json>) -> (r: Vec<String>)
    ensures
        r@.map_values(|s: String| s@) == strings_in(vs@),
{
    let mut r: Vec<String> = Vec::new();
    let mut i: usize = 0;
    while i < vs.len()
        invariant
            i <= vs@.len(),
            r@.map_values(|s: String| s@) == strings_in(vs@.subrange(0, i as int)),
        decreases vs.len() - i,
    {
        let ghost pre = vs@.subrange(0, i as int);
        assert(vs@.subrange(0, i + 1).drop_last() =~= pre);
        match &vs[i] {
            Json::Str(s) => {
                r.push(s.clone());
                assert(r@.map_values(|s: String| s@) =~= strings_in(pre).push(s@));
            },
            _ => {},
        }
        i = i + 1;
    }
    assert(vs@.subrange(0, vs@.len() as int) =~= vs@);
    r
}

} // verus!
