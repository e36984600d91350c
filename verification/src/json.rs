//! A JSON document model for the command line's machine output.
//!
//! Numbers are held as integers where the command line produces integers;
//! any other number keeps its textual JSON form.

use vstd::prelude::*;

verus! {

/// A JSON value.
#[derive(Debug, PartialEq)]
pub enum Json {
    Null,
    Bool(bool),
    Int(i64),
    UInt(u64),
    /// A number that is not held as an integer, in its JSON text form.
    Decimal(String),
    Str(String),
    Array(Vec<Json>),
    /// An object, as its entries in order.
    Object(Vec<(String, Json)>),
}

/// The mathematical value of a JSON document: strings as character
/// sequences, integers as mathematical integers.
pub enum JsonV {
    Null,
    Bool(bool),
    Int(int),
    Decimal(Seq<char>),
    Str(Seq<char>),
    Array(Seq<JsonV>),
    Object(Seq<(Seq<char>, JsonV)>),
}

impl Json {
    /// The mathematical value of this document.
    pub open spec fn deep(self) -> JsonV
        decreases self,
    {
        match self {
            Json::Null => JsonV::Null,
            Json::Bool(b) => JsonV::Bool(b),
            Json::Int(i) => JsonV::Int(i as int),
            Json::UInt(u) => JsonV::Int(u as int),
            Json::Decimal(s) => JsonV::Decimal(s@),
            Json::Str(s) => JsonV::Str(s@),
            Json::Array(items) => JsonV::Array(
                Seq::new(
                    items@.len(),
                    |i: int|
                        if 0 <= i < items@.len() {
                            items@[i].deep()
                        } else {
                            JsonV::Null
                        },
                ),
            ),
            Json::Object(entries) => JsonV::Object(
                Seq::new(
                    entries@.len(),
                    |i: int|
                        if 0 <= i < entries@.len() {
                            (entries@[i].0@, entries@[i].1.deep())
                        } else {
                            (Seq::empty(), JsonV::Null)
                        },
                ),
            ),
        }
    }
}

/// The values of a sequence of documents.
pub open spec fn deep_items(s: Seq<Json>) -> Seq<JsonV> {
    Seq::new(s.len(), |i: int| s[i].deep())
}

/// The values of a sequence of object entries.
pub open spec fn deep_entries(s: Seq<(String, Json)>) -> Seq<(Seq<char>, JsonV)> {
    Seq::new(s.len(), |i: int| (s[i].0@, s[i].1.deep()))
}

/// An array's value is the sequence of its items' values.
pub proof fn lemma_deep_array(v: Vec<Json>)
    ensures
        Json::Array(v).deep() == JsonV::Array(deep_items(v@)),
{
    match Json::Array(v).deep() {
        JsonV::Array(s) => {
            assert(s.len() == v@.len());
            assert forall|i: int| 0 <= i < s.len() implies s[i] == v@[i].deep() by {}
            assert(s =~= deep_items(v@));
        },
        _ => {},
    }
}

/// An object's value is the sequence of its entries' values.
pub proof fn lemma_deep_object(v: Vec<(String, Json)>)
    ensures
        Json::Object(v).deep() == JsonV::Object(deep_entries(v@)),
{
    match Json::Object(v).deep() {
        JsonV::Object(s) => {
            assert(s.len() == v@.len());
            assert forall|i: int| 0 <= i < s.len() implies s[i] == (v@[i].0@, v@[i].1.deep()) by {}
            assert(s =~= deep_entries(v@));
        },
        _ => {},
    }
}

/// Appending an item appends its value.
pub proof fn lemma_deep_items_push(s: Seq<Json>, x: Json)
    ensures
        deep_items(s.push(x)) == deep_items(s).push(x.deep()),
{
    assert(deep_items(s.push(x)) =~= deep_items(s).push(x.deep()));
}

/// Appending an entry appends its value.
pub proof fn lemma_deep_entries_push(s: Seq<(String, Json)>, x: (String, Json))
    ensures
        deep_entries(s.push(x)) == deep_entries(s).push((x.0@, x.1.deep())),
{
    assert(deep_entries(s.push(x)) =~= deep_entries(s).push((x.0@, x.1.deep())));
}

impl Json {
    /// The value under `key` when this is an object holding that key (its
    /// first entry so keyed).
    pub fn get(&self, key: &str) -> (r: Option<&Json>)
        ensures
            match r {
                Some(v) => crate::cli::output::get_field(self.deep(), key@) == Some(v.deep()),
                None => crate::cli::output::get_field(self.deep(), key@) is None,
            },
    {
        match self {
            Json::Object(es) => {
                proof {
                    lemma_deep_object(*es);
                }
                let ghost d = deep_entries(es@);
                let mut i: usize = 0;
                while i < es.len()
                    invariant
                        d == deep_entries(es@),
                        self.deep() == JsonV::Object(d),
                        i <= es@.len(),
                        forall|j: int| 0 <= j < i ==> d[j].0 != key@,
                    decreases es@.len() - i,
                {
                    if crate::text::same(es[i].0.as_str(), key) {
                        proof {
                            assert(crate::cli::output::is_first_key(d, key@, i as int));
                            let k = choose|k: int| crate::cli::output::is_first_key(d, key@, k);
                            if k < i {
                                assert(d[k].0 != key@);
                            } else if k > i {
                                assert(d[i as int].0 == key@);
                            }
                            assert(d[i as int].1 == es@[i as int].1.deep());
                            assert(self.deep() == JsonV::Object(d));
                        }
                        return Some(&es[i].1);
                    }
                    i += 1;
                }
                assert(!exists|k: int| crate::cli::output::is_first_key(d, key@, k));
                None
            },
            _ => None,
        }
    }

    /// The items when this is an array.
    pub fn as_array(&self) -> (r: Option<&Vec<Json>>)
        ensures
            match r {
                Some(v) => *self == Json::Array(*v),
                None => !(*self is Array),
            },
    {
        match self {
            Json::Array(items) => Some(items),
            _ => None,
        }
    }

    /// A JSON string holding `s`.
    pub fn text(s: &str) -> (r: Json)
        ensures
            r.deep() == JsonV::Str(s@),
    {
        Json::Str(s.to_string())
    }
}

/// An object entry with key `key`.
pub fn entry(key: &str, value: Json) -> (r: (String, Json))
    ensures
        r.0@ == key@,
        r.1 == value,
{
    (key.to_string(), value)
}

} // verus!
