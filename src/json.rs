//! JSON documents as the diff engine sees them.
//!
//! A `JsonValue` is a parsed document held in plain values: a number keeps
//! its canonical text, an object keeps its entries in order. Its view is the
//! mathematical `Json`, over which every contract of the diff engine is stated.
use vstd::prelude::*;
use crate::text::text_eq;

verus! {

/// A parsed JSON document.
#[derive(Debug)]
pub enum JsonValue {
    Null,
    Bool(bool),
    /// The number's canonical text (`5`, `-3`, `1.5`).
    Number(String),
    String(String),
    Array(Vec<JsonValue>),
    /// The entries in document order; a document has each key once.
    Object(Vec<(String, JsonValue)>),
}

/// The mathematical model of a JSON document.
pub enum Json {
    Null,
    Bool(bool),
    Number(Seq<char>),
    Str(Seq<char>),
    Array(Seq<Json>),
    Object(Seq<(Seq<char>, Json)>),
}

impl JsonValue {
    pub open spec fn model(self) -> Json
        decreases self,
    {
        match self {
            JsonValue::Null => Json::Null,
            JsonValue::Bool(b) => Json::Bool(b),
            JsonValue::Number(n) => Json::Number(n@),
            JsonValue::String(s) => Json::Str(s@),
            JsonValue::Array(xs) => Json::Array(
                Seq::new(
                    xs.len() as nat,
                    |i: int|
                        if 0 <= i < xs.len() {
                            xs[i].model()
                        } else {
                            Json::Null
                        },
                ),
            ),
            JsonValue::Object(es) => Json::Object(
                Seq::new(
                    es.len() as nat,
                    |i: int|
                        if 0 <= i < es.len() {
                            (es[i].0@, es[i].1.model())
                        } else {
                            (Seq::empty(), Json::Null)
                        },
                ),
            ),
        }
    }

    /// A deep copy, with the same model as `self`.
    pub fn duplicate(&self) -> (r: JsonValue)
        ensures
            r.model() == self.model(),
        decreases self,
    {
        match self {
            JsonValue::Null => JsonValue::Null,
            JsonValue::Bool(b) => JsonValue::Bool(*b),
            JsonValue::Number(n) => JsonValue::Number(n.clone()),
            JsonValue::String(s) => JsonValue::String(s.clone()),
            JsonValue::Array(xs) => {
                let mut out: Vec<JsonValue> = Vec::new();
                let mut i: usize = 0;
                while i < xs.len()
                    invariant
                        i <= xs.len(),
                        out.len() == i,
                        decreases_to!(*self => *xs),
                        forall|j: int| 0 <= j < i ==> (#[trigger] out[j]).model() == xs[j].model(),
                    decreases xs.len() - i,
                {
                    proof {
                        assert(decreases_to!(*xs => xs[i as int]));
                    }
                    let c = xs[i].duplicate();
                    out.push(c);
                    i = i + 1;
                }
                let r = JsonValue::Array(out);
                assert(r.model()->Array_0 =~= self.model()->Array_0);
                r
            },
            JsonValue::Object(es) => {
                let mut out: Vec<(String, JsonValue)> = Vec::new();
                let mut i: usize = 0;
                while i < es.len()
                    invariant
                        i <= es.len(),
                        out.len() == i,
                        decreases_to!(*self => *es),
                        forall|j: int|
                            0 <= j < i ==> (#[trigger] out[j]).0@ == es[j].0@ && out[j].1.model()
                                == es[j].1.model(),
                    decreases es.len() - i,
                {
                    let k = es[i].0.clone();
                    proof {
                        assert(decreases_to!(*es => es[i as int]));
                        assert(decreases_to!(es[i as int] => es[i as int].1));
                    }
                    let v = es[i].1.duplicate();
                    out.push((k, v));
                    i = i + 1;
                }
                let r = JsonValue::Object(out);
                assert(r.model()->Object_0 =~= self.model()->Object_0);
                r
            },
        }
    }
}

/// The canonical text of a number: negative zero reads as zero, the one
/// pair of distinct texts that denote equal JSON numbers.
pub open spec fn number_key(t: Seq<char>) -> Seq<char> {
    if t == "-0.0"@ {
        "0.0"@
    } else {
        t
    }
}

impl JsonValue {
    /// A number from its text, kept in canonical form.
    pub fn number(text: String) -> (r: JsonValue)
        ensures
            r.model() == Json::Number(number_key(text@)),
    {
        if text_eq(text.as_str(), "-0.0") {
            JsonValue::Number(String::from_str("0.0"))
        } else {
            JsonValue::Number(text)
        }
    }
}

/// Position of the first entry with key `k`, or -1 when there is none.
pub open spec fn key_position(es: Seq<(Seq<char>, Json)>, k: Seq<char>) -> int
    decreases es.len(),
{
    if es.len() == 0 {
        -1
    } else {
        let p = key_position(es.drop_last(), k);
        if p >= 0 {
            p
        } else if es.last().0 == k {
            es.len() - 1
        } else {
            -1
        }
    }
}

/// Each key of the entry list stands once.
pub open spec fn keys_unique(es: Seq<(Seq<char>, Json)>) -> bool {
    forall|i: int, j: int| 0 <= i < j < es.len() ==> es[i].0 != es[j].0
}

/// A well-formed document: every object in it has each key once.
pub open spec fn well_formed(j: Json) -> bool
    decreases j,
{
    match j {
        Json::Array(xs) => forall|i: int| 0 <= i < xs.len() ==> well_formed(#[trigger] xs[i]),
        Json::Object(es) => keys_unique(es) && forall|i: int|
            0 <= i < es.len() ==> well_formed(#[trigger] es[i].1),
        _ => true,
    }
}

pub proof fn lemma_key_position(es: Seq<(Seq<char>, Json)>, k: Seq<char>)
    ensures
        -1 <= key_position(es, k) < es.len(),
        key_position(es, k) >= 0 ==> es[key_position(es, k)].0 == k,
        key_position(es, k) >= 0 ==> forall|i: int|
            0 <= i < key_position(es, k) ==> es[i].0 != k,
        key_position(es, k) < 0 ==> forall|i: int| 0 <= i < es.len() ==> es[i].0 != k,
    decreases es.len(),
{
    if es.len() > 0 {
        lemma_key_position(es.drop_last(), k);
        assert(forall|i: int| 0 <= i < es.len() - 1 ==> es.drop_last()[i] == es[i]);
    }
}

/// In a list with unique keys, the key of entry `i` is found at `i`.
pub proof fn lemma_key_position_unique(es: Seq<(Seq<char>, Json)>, i: int)
    requires
        keys_unique(es),
        0 <= i < es.len(),
    ensures
        key_position(es, es[i].0) == i,
{
    lemma_key_position(es, es[i].0);
}

/// Finds the first entry with key `k`, as `key_position` describes.
pub fn find_key(es: &Vec<(String, JsonValue)>, k: &String) -> (r: Option<usize>)
    ensures
        match r {
            Some(i) => i < es.len() && key_position(es_model(es@), k@) == i,
            None => key_position(es_model(es@), k@) == -1,
        },
{
    let ghost m = es_model(es@);
    proof {
        lemma_key_position(m, k@);
    }
    let mut i: usize = 0;
    while i < es.len()
        invariant
            i <= es.len(),
            m == es_model(es@),
            -1 <= key_position(m, k@) < m.len(),
            key_position(m, k@) >= 0 ==> m[key_position(m, k@)].0 == k@,
            key_position(m, k@) >= 0 ==> forall|j: int| 0 <= j < key_position(m, k@) ==> m[j].0 != k@,
            key_position(m, k@) < 0 ==> forall|j: int| 0 <= j < m.len() ==> m[j].0 != k@,
            forall|j: int| 0 <= j < i ==> m[j].0 != k@,
        decreases es.len() - i,
    {
        if es[i].0 == *k {
            assert(m[i as int].0 == k@);
            return Some(i);
        }
        i = i + 1;
    }
    None
}

/// The model of an entry list.
pub open spec fn es_model(es: Seq<(String, JsonValue)>) -> Seq<(Seq<char>, Json)> {
    Seq::new(es.len() as nat, |i: int| (es[i].0@, es[i].1.model()))
}

} // verus!
