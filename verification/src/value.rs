//! A loosely-typed document value: the in-memory form of a decoded wire
//! payload, before it is turned into the typed interaction record.

use vstd::prelude::*;

verus! {

broadcast use vstd::std_specs::vec::axiom_vec_decreases_to_view, vstd::seq::axiom_seq_index_decreases, vstd::seq_lib::group_seq_properties;

/// One loosely-typed value of a wire document: a string, an unsigned number,
/// a boolean, null, a list, or an object held as a sequence of key/value
/// pairs.
#[derive(Debug)]
pub enum Value {
    Null,
    Bool(bool),
    U64(u64),
    Str(String),
    List(Vec<Value>),
    Obj(Vec<(String, Value)>),
}

/// The mathematical shape of a [`Value`]: strings become sequences of
/// characters, lists and objects become sequences.
pub enum ValueV {
    Null,
    Bool(bool),
    U64(u64),
    Str(Seq<char>),
    List(Seq<ValueV>),
    Obj(Seq<(Seq<char>, ValueV)>),
}

impl Value {
    /// The abstract value that contracts speak of.
    pub open spec fn dv(&self) -> ValueV
        decreases *self, 0int,
    {
        match self {
            Value::Null => ValueV::Null,
            Value::Bool(b) => ValueV::Bool(*b),
            Value::U64(n) => ValueV::U64(*n),
            Value::Str(s) => ValueV::Str(s@),
            Value::List(l) => {
                proof {
                    assert(decreases_to!(*self => *l));
                    assert(decreases_to!(*l => l@));
                }
                ValueV::List(dv_seq(l@))
            },
            Value::Obj(m) => {
                proof {
                    assert(decreases_to!(*self => *m));
                    assert(decreases_to!(*m => m@));
                }
                ValueV::Obj(dv_pairs(m@))
            },
        }
    }
}

/// The abstract values of a sequence of document values, element by element.
pub open spec fn dv_seq(s: Seq<Value>) -> Seq<ValueV>
    decreases s, 1int,
{
    if s.len() == 0 {
        Seq::empty()
    } else {
        dv_seq(s.drop_last()).push(s.last().dv())
    }
}

/// The abstract values of a sequence of key/value pairs, element by element.
pub open spec fn dv_pairs(s: Seq<(String, Value)>) -> Seq<(Seq<char>, ValueV)>
    decreases s, 1int,
{
    if s.len() == 0 {
        Seq::empty()
    } else {
        dv_pairs(s.drop_last()).push((s.last().0@, s.last().1.dv()))
    }
}

/// `dv_seq` is the element-by-element abstraction of a sequence of values.
pub broadcast proof fn lemma_dv_seq(s: Seq<Value>)
    ensures
        (#[trigger] dv_seq(s)).len() == s.len(),
        forall|i: int| 0 <= i < s.len() ==> dv_seq(s)[i] == s[i].dv(),
    decreases s.len(),
{
    if s.len() > 0 {
        lemma_dv_seq(s.drop_last());
    }
}

/// `dv_pairs` is the element-by-element abstraction of a sequence of pairs.
pub broadcast proof fn lemma_dv_pairs(s: Seq<(String, Value)>)
    ensures
        (#[trigger] dv_pairs(s)).len() == s.len(),
        forall|i: int| 0 <= i < s.len() ==> dv_pairs(s)[i] == (s[i].0@, s[i].1.dv()),
    decreases s.len(),
{
    if s.len() > 0 {
        lemma_dv_pairs(s.drop_last());
    }
}

/// The value under the first occurrence of `k` among the pairs of `s`, if
/// any. The documents this library decodes carry each key at most once, so
/// this is the value under `k`.
pub open spec fn lookup(s: Seq<(Seq<char>, ValueV)>, k: Seq<char>) -> Option<ValueV>
    decreases s.len(),
{
    if s.len() == 0 {
        None
    } else if s[0].0 == k {
        Some(s[0].1)
    } else {
        lookup(s.drop_first(), k)
    }
}

/// A single pair in front of a sequence of pairs.
pub open spec fn keyed(k: Seq<char>, v: ValueV, rest: Seq<(Seq<char>, ValueV)>) -> Seq<
    (Seq<char>, ValueV),
> {
    seq![(k, v)] + rest
}

/// Looking a key up in `keyed(k, v, rest)` takes `v` when the key matches and
/// falls through to `rest` otherwise.
pub broadcast proof fn lemma_lookup_keyed(
    k: Seq<char>,
    v: ValueV,
    rest: Seq<(Seq<char>, ValueV)>,
    key: Seq<char>,
)
    ensures
        #[trigger] lookup(keyed(k, v, rest), key) == if k == key {
            Some(v)
        } else {
            lookup(rest, key)
        },
{
    let s = keyed(k, v, rest);
    assert(s[0] == (k, v));
    assert(s.drop_first() =~= rest);
}

/// A reference to the value under `key`, or `None` when the document has no
/// such key.
pub fn find_key<'a>(doc: &'a Vec<(String, Value)>, key: &String) -> (r: Option<&'a Value>)
    ensures
        match r {
            Some(v) => lookup(dv_pairs(doc@), key@) == Some(v.dv()),
            None => lookup(dv_pairs(doc@), key@) is None,
        },
{
    proof {
        lemma_dv_pairs(doc@);
    }
    let n = doc.len();
    let mut i: usize = 0;
    while i < n
        invariant
            n == doc.len(),
            i <= n,
            lookup(dv_pairs(doc@), key@) == lookup(dv_pairs(doc@).skip(i as int), key@),
        decreases n - i,
    {
        proof {
            lemma_dv_pairs(doc@);
            assert(dv_pairs(doc@).skip(i as int)[0] == (doc@[i as int].0@, doc@[i as int].1.dv()));
            assert(dv_pairs(doc@).skip(i as int).drop_first() =~= dv_pairs(doc@).skip(
                i as int + 1,
            ));
        }
        if doc[i].0 == *key {
            return Some(&doc[i].1);
        }
        i += 1;
    }
    proof {
        assert(dv_pairs(doc@).skip(n as int) =~= Seq::empty());
    }
    None
}

} // verus!
