//! A JSON value the library builds and reads, with its view.
use vstd::prelude::*;
use crate::seqs::{first_index, lemma_first_index, lemma_first_index_unique};
use crate::text::str_eq;

verus! {

/// A JSON number: an unsigned or negative integer, or a floating point value
/// carried as its bits.
#[derive(Clone, Copy, Debug, PartialEq, Eq, Structural)]
pub enum JsonNumber {
    UInt(u64),
    NegInt(i64),
    FloatBits(u64),
}

/// A JSON value; an object keeps its members in order.
#[derive(Debug)]
pub enum Json {
    Null,
    Bool(bool),
    Number(JsonNumber),
    Str(String),
    Array(Vec<Json>),
    Object(Vec<(String, Json)>),
}

pub enum JsonV {
    Null,
    Bool(bool),
    Number(JsonNumber),
    Str(Seq<char>),
    Array(Seq<JsonV>),
    Object(Seq<(Seq<char>, JsonV)>),
}

pub open spec fn json_view(j: Json) -> JsonV
    decreases j,
{
    match j {
        Json::Null => JsonV::Null,
        Json::Bool(b) => JsonV::Bool(b),
        Json::Number(n) => JsonV::Number(n),
        Json::Str(s) => JsonV::Str(s@),
        Json::Array(v) => JsonV::Array(Seq::new(v@.len(), |i: int| if 0 <= i < v@.len() { json_view(v@[i]) } else { JsonV::Null })),
        Json::Object(v) => JsonV::Object(Seq::new(v@.len(), |i: int| if 0 <= i < v@.len() { (v@[i].0@, json_view(v@[i].1)) } else { (Seq::empty(), JsonV::Null) })),
    }
}


pub open spec fn members_view(v: Seq<(String, Json)>) -> Seq<(Seq<char>, JsonV)> {
    v.map_values(|p: (String, Json)| (p.0@, json_view(p.1)))
}

pub open spec fn items_view(v: Seq<Json>) -> Seq<JsonV> {
    v.map_values(|j: Json| json_view(j))
}

pub open spec fn juint(n: u64) -> JsonV {
    JsonV::Number(JsonNumber::UInt(n))
}

pub open spec fn jstr(s: Seq<char>) -> JsonV {
    JsonV::Str(s)
}

pub open spec fn jbool(b: bool) -> JsonV {
    JsonV::Bool(b)
}

/// `Some(n)` as a number, `None` as null.
pub open spec fn jopt_uint(o: Option<u64>) -> JsonV {
    match o {
        Some(n) => juint(n),
        None => JsonV::Null,
    }
}

/// An object built from an empty one by adding members in order.
pub fn object(v: Vec<(String, Json)>) -> (r: Json)
    ensures
        json_view(r) == JsonV::Object(members_view(v@)),
{
    let r = Json::Object(v);
    proof { assert(json_view(r)->Object_0 =~= members_view(v@)); }
    r
}

pub fn array(v: Vec<Json>) -> (r: Json)
    ensures
        json_view(r) == JsonV::Array(items_view(v@)),
{
    let r = Json::Array(v);
    proof { assert(json_view(r)->Array_0 =~= items_view(v@)); }
    r
}

/// Appends a member.
pub fn put(m: &mut Vec<(String, Json)>, key: &str, value: Json)
    ensures
        members_view(final(m)@) == members_view(old(m)@).push((key@, json_view(value))),
{
    let ghost jv = json_view(value);
    m.push((String::from_str(key), value));
    proof { assert(members_view(m@) =~= members_view(old(m)@).push((key@, jv))); }
}

/// Appends an item.
pub fn push_item(v: &mut Vec<Json>, value: Json)
    ensures
        items_view(final(v)@) == items_view(old(v)@).push(json_view(value)),
{
    let ghost jv = json_view(value);
    v.push(value);
    proof { assert(items_view(v@) =~= items_view(old(v)@).push(jv)); }
}

pub fn new_members() -> (r: Vec<(String, Json)>)
    ensures
        members_view(r@) == Seq::<(Seq<char>, JsonV)>::empty(),
{
    let r: Vec<(String, Json)> = Vec::new();
    proof { assert(members_view(r@) =~= Seq::<(Seq<char>, JsonV)>::empty()); }
    r
}

pub fn new_items() -> (r: Vec<Json>)
    ensures
        items_view(r@) == Seq::<JsonV>::empty(),
{
    let r: Vec<Json> = Vec::new();
    proof { assert(items_view(r@) =~= Seq::<JsonV>::empty()); }
    r
}

pub fn uint(n: u64) -> (r: Json)
    ensures
        json_view(r) == juint(n),
{
    Json::Number(JsonNumber::UInt(n))
}

pub fn string(s: String) -> (r: Json)
    ensures
        json_view(r) == jstr(s@),
{
    Json::Str(s)
}

pub fn text(s: &str) -> (r: Json)
    ensures
        json_view(r) == jstr(s@),
{
    Json::Str(String::from_str(s))
}

pub fn boolean(b: bool) -> (r: Json)
    ensures
        json_view(r) == jbool(b),
{
    Json::Bool(b)
}

pub fn opt_uint(o: Option<u64>) -> (r: Json)
    ensures
        json_view(r) == jopt_uint(o),
{
    match o {
        Some(n) => Json::Number(JsonNumber::UInt(n)),
        None => Json::Null,
    }
}

pub open spec fn key_is(key: Seq<char>) -> spec_fn((Seq<char>, JsonV)) -> bool {
    |p: (Seq<char>, JsonV)| p.0 == key
}

/// The value of the first member named `key`.
pub open spec fn lookup(ms: Seq<(Seq<char>, JsonV)>, key: Seq<char>) -> Option<JsonV> {
    let i = first_index(ms, key_is(key));
    if i < 0 { None } else { Some(ms[i].1) }
}

/// The value of the first member named `key`; see `lookup`.
pub fn get<'a>(m: &'a Vec<(String, Json)>, key: &str) -> (r: Option<&'a Json>)
    ensures
        match r {
            Some(j) => lookup(members_view(m@), key@) == Some(json_view(*j)),
            None => lookup(members_view(m@), key@) is None,
        },
{
    let ghost ms = members_view(m@);
    let mut i: usize = 0;
    while i < m.len()
        invariant
            i <= m.len(),
            ms == members_view(m@),
            forall|j: int| 0 <= j < i ==> !key_is(key@)(#[trigger] ms[j]),
        decreases m.len() - i,
    {
        if str_eq(m[i].0.as_str(), key) {
            proof { lemma_first_index_unique(ms, key_is(key@), i as int); }
            return Some(&m[i].1);
        }
        i = i + 1;
    }
    proof { lemma_first_index(ms, key_is(key@)); }
    None
}


/// A copy of a JSON value.
pub fn clone_json(j: &Json) -> (r: Json)
    ensures
        json_view(r) == json_view(*j),
    decreases j,
{
    match j {
        Json::Null => Json::Null,
        Json::Bool(b) => Json::Bool(*b),
        Json::Number(n) => Json::Number(*n),
        Json::Str(s) => Json::Str(s.clone()),
        Json::Array(v) => {
            let mut out: Vec<Json> = Vec::new();
            let mut i: usize = 0;
            while i < v.len()
                invariant
                    i <= v.len(),
                    *j == Json::Array(*v),
                    items_view(out@) == items_view(v@).take(i as int),
                decreases v.len() - i,
            {
                proof {
                    assert(decreases_to!(*j => (*j)->Array_0));
                    assert(decreases_to!(*v => v@));
                    assert(decreases_to!(v@ => v@[i as int]));
                }
                let c = clone_json(&v[i]);
                let ghost before = out@;
                out.push(c);
                proof {
                    assert(items_view(out@) =~= items_view(before).push(json_view(c)));
                    assert(items_view(out@) =~= items_view(v@).take(i + 1));
                }
                i = i + 1;
            }
            proof {
                assert(items_view(v@).take(i as int) =~= items_view(v@));
                assert(json_view(*j)->Array_0 =~= items_view(v@));
            }
            array(out)
        },
        Json::Object(v) => {
            let mut out: Vec<(String, Json)> = Vec::new();
            let mut i: usize = 0;
            while i < v.len()
                invariant
                    i <= v.len(),
                    *j == Json::Object(*v),
                    members_view(out@) == members_view(v@).take(i as int),
                decreases v.len() - i,
            {
                proof {
                    assert(decreases_to!(*j => (*j)->Object_0));
                    assert(decreases_to!(*v => v@));
                    assert(decreases_to!(v@ => v@[i as int]));
                    assert(decreases_to!(v@[i as int] => v@[i as int].1));
                }
                let c = clone_json(&v[i].1);
                let k = v[i].0.clone();
                let ghost before = out@;
                out.push((k, c));
                proof {
                    assert(members_view(out@) =~= members_view(before).push((k@, json_view(c))));
                    assert(members_view(out@) =~= members_view(v@).take(i + 1));
                }
                i = i + 1;
            }
            proof {
                assert(members_view(v@).take(i as int) =~= members_view(v@));
                assert(json_view(*j)->Object_0 =~= members_view(v@));
            }
            object(out)
        },
    }
}

} // verus!
