//! The JSON value tree that the decoder produces and the schema layer reads.
//!
//! Numbers keep their raw token text: the export mixes integers and
//! free-form numeric values, and the schema layer decides per field what a
//! number must look like.

use vstd::prelude::*;

verus! {

/// A decoded JSON value.  Object entries keep the document order and numbers
/// keep their source text.
#[derive(Debug, PartialEq)]
pub enum Json {
    Null,
    Bool(bool),
    Num(Vec<char>),
    Str(String),
    Arr(Vec<Json>),
    Obj(Vec<(String, Json)>),
}

/// The mathematical shape of a [`Json`] value.
pub enum JsonV {
    Null,
    Bool(bool),
    Num(Seq<char>),
    Str(Seq<char>),
    Arr(Seq<JsonV>),
    Obj(Seq<(Seq<char>, JsonV)>),
}

/// The mathematical value of a JSON tree.
pub open spec fn json_v(j: Json) -> JsonV
    decreases j,
{
    match j {
        Json::Null => JsonV::Null,
        Json::Bool(b) => JsonV::Bool(b),
        Json::Num(t) => JsonV::Num(t@),
        Json::Str(s) => JsonV::Str(s@),
        Json::Arr(a) => JsonV::Arr(vec_v(a)),
        Json::Obj(o) => JsonV::Obj(obj_v(o)),
    }
}

/// The mathematical value of an array's elements.
pub open spec fn vec_v(a: Vec<Json>) -> Seq<JsonV>
    decreases a,
{
    arr_v(a@)
}

/// The mathematical value of a sequence of JSON trees.
pub open spec fn arr_v(s: Seq<Json>) -> Seq<JsonV>
    decreases s,
{
    if s.len() == 0 {
        Seq::empty()
    } else {
        seq![json_v(s[0])] + arr_v(s.subrange(1, s.len() as int))
    }
}

/// The mathematical value of an object's entries.
pub open spec fn obj_v(o: Vec<(String, Json)>) -> Seq<(Seq<char>, JsonV)>
    decreases o,
{
    entries_v(o@)
}

/// The mathematical value of a sequence of object entries.
pub open spec fn entries_v(es: Seq<(String, Json)>) -> Seq<(Seq<char>, JsonV)>
    decreases es,
{
    if es.len() == 0 {
        Seq::empty()
    } else {
        seq![entry_v(es[0])] + entries_v(es.subrange(1, es.len() as int))
    }
}

/// The mathematical value of one object entry.
pub open spec fn entry_v(e: (String, Json)) -> (Seq<char>, JsonV)
    decreases e,
{
    (e.0@, json_v(e.1))
}

/// [`arr_v`] maps the sequence pointwise.
pub broadcast proof fn lemma_arr_v(s: Seq<Json>)
    ensures
        (#[trigger] arr_v(s)).len() == s.len(),
        forall|i: int| #![auto] 0 <= i < s.len() ==> arr_v(s)[i] == json_v(s[i]),
    decreases s.len(),
{
    if s.len() != 0 {
        lemma_arr_v(s.subrange(1, s.len() as int));
    }
}

/// [`entries_v`] maps the sequence pointwise.
pub broadcast proof fn lemma_entries_v(es: Seq<(String, Json)>)
    ensures
        (#[trigger] entries_v(es)).len() == es.len(),
        forall|i: int| #![auto] 0 <= i < es.len() ==> entries_v(es)[i] == entry_v(es[i]),
    decreases es.len(),
{
    if es.len() != 0 {
        lemma_entries_v(es.subrange(1, es.len() as int));
    }
}

/// The value under the first entry named `k`, if any.  A repeated key reads
/// through its first entry; later duplicates are tolerated and ignored, like
/// keys the schema does not name.
pub open spec fn lookup(o: Seq<(Seq<char>, JsonV)>, k: Seq<char>) -> Option<JsonV>
    decreases o.len(),
{
    if o.len() == 0 {
        None
    } else if o[0].0 == k {
        Some(o[0].1)
    } else {
        lookup(o.drop_first(), k)
    }
}

/// The entries of `o` whose key is not `k`.
pub open spec fn strip(o: Seq<(Seq<char>, JsonV)>, k: Seq<char>) -> Seq<(Seq<char>, JsonV)>
    decreases o.len(),
{
    if o.len() == 0 {
        Seq::empty()
    } else if o[0].0 == k {
        strip(o.drop_first(), k)
    } else {
        seq![o[0]] + strip(o.drop_first(), k)
    }
}

/// Removing the entries of one key leaves every other key's first entry alone.
pub proof fn lemma_lookup_strip(o: Seq<(Seq<char>, JsonV)>, k: Seq<char>, other: Seq<char>)
    requires
        other != k,
    ensures
        lookup(strip(o, k), other) == lookup(o, other),
    decreases o.len(),
{
    if o.len() != 0 {
        lemma_lookup_strip(o.drop_first(), k, other);
        if o[0].0 != k {
            assert((seq![o[0]] + strip(o.drop_first(), k)).drop_first() =~= strip(
                o.drop_first(),
                k,
            ));
        }
    }
}

/// A stripped key is gone.
pub proof fn lemma_lookup_strip_self(o: Seq<(Seq<char>, JsonV)>, k: Seq<char>)
    ensures
        lookup(strip(o, k), k) is None,
    decreases o.len(),
{
    if o.len() != 0 {
        lemma_lookup_strip_self(o.drop_first(), k);
        if o[0].0 != k {
            assert((seq![o[0]] + strip(o.drop_first(), k)).drop_first() =~= strip(
                o.drop_first(),
                k,
            ));
        }
    }
}

/// Scanning past entries whose key is not `k` does not change the lookup.
proof fn lemma_lookup_scan(es: Seq<(Seq<char>, JsonV)>, k: Seq<char>, i: int)
    requires
        0 <= i <= es.len(),
        forall|j: int| 0 <= j < i ==> es[j].0 != k,
    ensures
        lookup(es, k) == lookup(es.skip(i), k),
    decreases i,
{
    if i > 0 {
        lemma_lookup_scan(es, k, i - 1);
        assert(es.skip(i - 1)[0] == es[i - 1]);
        assert(es.skip(i - 1).drop_first() =~= es.skip(i));
    } else {
        assert(es.skip(0) =~= es);
    }
}

/// Finds the first entry of `o` named `name`; the index witnesses [`lookup`].
pub fn find_key(o: &Vec<(String, Json)>, name: &str) -> (r: Option<usize>)
    ensures
        match r {
            Some(i) => i < o.len() && o@[i as int].0@ == name@ && lookup(entries_v(o@), name@)
                == Some(json_v(o@[i as int].1)),
            None => lookup(entries_v(o@), name@) is None,
        },
{
    proof {
        lemma_entries_v(o@);
    }
    let key = String::from_str(name);
    let mut i: usize = 0;
    while i < o.len()
        invariant
            i <= o.len(),
            key@ == name@,
            entries_v(o@).len() == o@.len(),
            forall|j: int| #![auto] 0 <= j < o@.len() ==> entries_v(o@)[j] == entry_v(o@[j]),
            forall|j: int| 0 <= j < i ==> #[trigger] entries_v(o@)[j].0 != name@,
        decreases o.len() - i,
    {
        let entry = &o[i];
        if entry.0.eq(&key) {
            proof {
                lemma_lookup_scan(entries_v(o@), name@, i as int);
                assert(entries_v(o@).skip(i as int)[0] == entries_v(o@)[i as int]);
            }
            return Some(i);
        }
        i = i + 1;
    }
    proof {
        lemma_lookup_scan(entries_v(o@), name@, i as int);
        assert(entries_v(o@).skip(i as int) =~= Seq::empty());
    }
    None
}

} // verus!
