//! A JSON document tree, as handed to the text encoder.
use vstd::prelude::*;

verus! {

broadcast use vstd::std_specs::vec::group_vec_axioms;

/// A JSON value. Numbers are either unsigned integers or IEEE-754
/// binary64 values carried as their bit pattern.
#[derive(Debug)]
pub enum Json {
    Null,
    Bool(bool),
    UInt(usize),
    Number(u64),
    Str(String),
    Array(Vec<Json>),
    Object(Vec<(String, Json)>),
}

/// The mathematical value of a JSON document.
pub enum JsonV {
    Null,
    Bool(bool),
    UInt(nat),
    Number(u64),
    Str(Seq<char>),
    Array(Seq<JsonV>),
    Object(Seq<(Seq<char>, JsonV)>),
}

pub open spec fn json_value(j: Json) -> JsonV
    decreases j,
{
    match j {
        Json::Null => JsonV::Null,
        Json::Bool(b) => JsonV::Bool(b),
        Json::UInt(n) => JsonV::UInt(n as nat),
        Json::Number(bits) => JsonV::Number(bits),
        Json::Str(s) => JsonV::Str(s@),
        Json::Array(v) => JsonV::Array(
            Seq::new(
                v@.len(),
                |i: int|
                    if 0 <= i < v@.len() {
                        json_value(v@[i])
                    } else {
                        JsonV::Null
                    },
            ),
        ),
        Json::Object(v) => JsonV::Object(
            Seq::new(
                v@.len(),
                |i: int|
                    if 0 <= i < v@.len() {
                        (v@[i].0@, json_value(v@[i].1))
                    } else {
                        (Seq::empty(), JsonV::Null)
                    },
            ),
        ),
    }
}

/// The entries of an object under construction.
pub open spec fn json_entries(v: Seq<(String, Json)>) -> Seq<(Seq<char>, JsonV)> {
    Seq::new(v.len(), |i: int| (v[i].0@, json_value(v[i].1)))
}

/// The entries of an object, in order, with their values' meaning.
pub open spec fn object_of(v: Vec<(String, Json)>) -> JsonV {
    JsonV::Object(json_entries(v@))
}

/// Appends an entry to an object under construction.
pub fn push_entry(obj: &mut Vec<(String, Json)>, key: &str, value: Json)
    ensures
        json_entries(final(obj)@) == json_entries(old(obj)@).push((key@, json_value(value))),
{
    let ghost v = json_value(value);
    obj.push((key.to_owned(), value));
    assert(json_entries(final(obj)@) =~= json_entries(old(obj)@).push((key@, v)));
}

pub open spec fn values_of(v: Seq<Json>) -> Seq<JsonV> {
    Seq::new(v.len(), |i: int| json_value(v[i]))
}

pub broadcast proof fn lemma_array_value(v: Vec<Json>)
    ensures
        #[trigger] json_value(Json::Array(v)) == JsonV::Array(values_of(v@)),
{
    assert(json_value(Json::Array(v))->Array_0 =~= values_of(v@));
}

pub broadcast proof fn lemma_object_value(v: Vec<(String, Json)>)
    ensures
        #[trigger] json_value(Json::Object(v)) == JsonV::Object(json_entries(v@)),
{
    assert(json_value(Json::Object(v))->Object_0 =~= json_entries(v@));
}

pub broadcast group group_json {
    lemma_array_value,
    lemma_object_value,
}

/// Appends a value to an array under construction.
pub fn push_value(arr: &mut Vec<Json>, value: Json)
    ensures
        values_of(final(arr)@) == values_of(old(arr)@).push(json_value(value)),
{
    let ghost v = json_value(value);
    arr.push(value);
    assert(values_of(final(arr)@) =~= values_of(old(arr)@).push(v));
}

fn duplicate_values(v: &Vec<Json>) -> (r: Vec<Json>)
    ensures
        values_of(r@) == values_of(v@),
    decreases v,
{
    let mut out: Vec<Json> = Vec::new();
    let mut i: usize = 0;
    while i < v.len()
        invariant
            i <= v@.len(),
            values_of(out@) == values_of(v@.take(i as int)),
        decreases v@.len() - i,
    {
        let x = v[i].duplicate();
        push_value(&mut out, x);
        assert(values_of(v@.take(i as int + 1)) =~= values_of(v@.take(i as int)).push(json_value(v@[i as int])));
        i = i + 1;
    }
    assert(v@.take(v@.len() as int) =~= v@);
    out
}

fn duplicate_entries(v: &Vec<(String, Json)>) -> (r: Vec<(String, Json)>)
    ensures
        json_entries(r@) == json_entries(v@),
    decreases v,
{
    let mut out: Vec<(String, Json)> = Vec::new();
    let mut i: usize = 0;
    while i < v.len()
        invariant
            i <= v@.len(),
            json_entries(out@) == json_entries(v@.take(i as int)),
        decreases v@.len() - i,
    {
        let x = v[i].1.duplicate();
        push_entry(&mut out, v[i].0.as_str(), x);
        assert(json_entries(v@.take(i as int + 1)) =~= json_entries(v@.take(i as int)).push(
            (v@[i as int].0@, json_value(v@[i as int].1)),
        ));
        i = i + 1;
    }
    assert(v@.take(v@.len() as int) =~= v@);
    out
}

impl Json {
    /// A copy of the document.
    pub fn duplicate(&self) -> (r: Json)
        ensures
            json_value(r) == json_value(*self),
        decreases self,
    {
        broadcast use group_json;

        match self {
            Json::Null => Json::Null,
            Json::Bool(b) => Json::Bool(*b),
            Json::UInt(n) => Json::UInt(*n),
            Json::Number(bits) => Json::Number(*bits),
            Json::Str(s) => Json::Str(s.clone()),
            Json::Array(v) => Json::Array(duplicate_values(v)),
            Json::Object(v) => Json::Object(duplicate_entries(v)),
        }
    }
}

} // verus!
