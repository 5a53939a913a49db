//! The configuration document model: an ordered, YAML-like mapping tree.
//!
//! A document is a [`Value`]; mappings keep their entries in insertion
//! order, the way the on-disk runtime document lists them. The spec-level
//! mirror is [`SpecValue`], built from `Seq` so contracts can state deep,
//! extensional facts about documents.

use vstd::prelude::*;

verus! {

/// A node of a configuration document.
#[derive(Debug, PartialEq)]
pub enum Value {
    Null,
    Bool(bool),
    Int(i64),
    Text(String),
    List(Vec<Value>),
    /// An ordered mapping; entries keep insertion order.
    Mapping(Vec<(String, Value)>),
}

/// The mathematical shape of a [`Value`].
#[verifier::ext_equal]
pub enum SpecValue {
    Null,
    Bool(bool),
    Int(int),
    Text(Seq<char>),
    List(Seq<SpecValue>),
    Mapping(Seq<(Seq<char>, SpecValue)>),
}

/// The shape of a list of document nodes.
pub open spec fn view_values(s: Seq<Value>) -> Seq<SpecValue>
    decreases s,
{
    if s.len() == 0 {
        Seq::empty()
    } else {
        view_values(s.drop_last()).push(s.last().view())
    }
}

/// The shape of a run of mapping entries.
pub open spec fn view_entries(s: Seq<(String, Value)>) -> Seq<(Seq<char>, SpecValue)>
    decreases s,
{
    if s.len() == 0 {
        Seq::empty()
    } else {
        view_entries(s.drop_last()).push((s.last().0@, s.last().1.view()))
    }
}

impl View for Value {
    type V = SpecValue;

    open spec fn view(&self) -> SpecValue
        decreases self,
    {
        match self {
            Value::Null => SpecValue::Null,
            Value::Bool(b) => SpecValue::Bool(*b),
            Value::Int(i) => SpecValue::Int(*i as int),
            Value::Text(s) => SpecValue::Text(s@),
            Value::List(xs) => SpecValue::List(view_values(xs@)),
            Value::Mapping(es) => SpecValue::Mapping(view_entries(es@)),
        }
    }
}

/// `view_values` maps each element to its shape, in order.
pub proof fn lemma_view_values(s: Seq<Value>)
    ensures
        view_values(s).len() == s.len(),
        forall|i: int| 0 <= i < s.len() ==> view_values(s)[i] == #[trigger] s[i].view(),
    decreases s,
{
    if s.len() > 0 {
        lemma_view_values(s.drop_last());
        assert(view_values(s) == view_values(s.drop_last()).push(s.last().view()));
        assert forall|i: int| 0 <= i < s.len() implies view_values(s)[i]
            == #[trigger] s[i].view() by {
            if i < s.len() - 1 {
                assert(s.drop_last()[i] == s[i]);
            } else {
                assert(s[i] == s.last());
            }
        }
    }
}

/// `view_entries` maps each entry to its shape, in order.
pub proof fn lemma_view_entries(s: Seq<(String, Value)>)
    ensures
        view_entries(s).len() == s.len(),
        forall|i: int| 0 <= i < s.len() ==> view_entries(s)[i]
            == (#[trigger] s[i].0@, s[i].1.view()),
    decreases s,
{
    if s.len() > 0 {
        lemma_view_entries(s.drop_last());
        assert(view_entries(s) == view_entries(s.drop_last()).push(
            (s.last().0@, s.last().1.view()),
        ));
        assert forall|i: int| 0 <= i < s.len() implies view_entries(s)[i] == (
        #[trigger] s[i].0@,
        s[i].1.view(),
        ) by {
            if i < s.len() - 1 {
                assert(s.drop_last()[i] == s[i]);
            } else {
                assert(s[i] == s.last());
            }
        }
    }
}

/// The value stored under `key`, at the first entry whose key matches.
pub open spec fn spec_lookup(es: Seq<(Seq<char>, SpecValue)>, key: Seq<char>) -> Option<SpecValue>
    decreases es,
{
    if es.len() == 0 {
        None
    } else if es[0].0 == key {
        Some(es[0].1)
    } else {
        spec_lookup(es.skip(1), key)
    }
}

/// Whether some entry carries `key`.
pub open spec fn spec_has_key(es: Seq<(Seq<char>, SpecValue)>, key: Seq<char>) -> bool {
    spec_lookup(es, key) is Some
}

/// The keys of a run of entries, in order.
pub open spec fn spec_keys(es: Seq<(Seq<char>, SpecValue)>) -> Seq<Seq<char>> {
    es.map_values(|e: (Seq<char>, SpecValue)| e.0)
}

/// The top-level keys of a document: its mapping keys, or empty when the
/// document is not a mapping.
pub open spec fn spec_top_keys(v: SpecValue) -> Seq<Seq<char>> {
    match v {
        SpecValue::Mapping(es) => spec_keys(es),
        _ => Seq::empty(),
    }
}

impl Value {
    /// An empty mapping document.
    pub fn empty_map() -> (r: Value)
        ensures
            r@ == SpecValue::Mapping(Seq::<(Seq<char>, SpecValue)>::empty()),
    {
        let r = Value::Mapping(Vec::new());
        proof {
            assert(r@ =~= SpecValue::Mapping(Seq::<(Seq<char>, SpecValue)>::empty()));
        }
        r
    }

    /// A deep copy with the same shape.
    #[verifier::loop_isolation(false)]
    pub fn deep_dup(&self) -> (r: Value)
        ensures
            r@ == self@,
        decreases self,
    {
        match self {
            Value::Null => Value::Null,
            Value::Bool(b) => Value::Bool(*b),
            Value::Int(i) => Value::Int(*i),
            Value::Text(s) => Value::Text(s.clone()),
            Value::List(xs) => {
                let mut out: Vec<Value> = Vec::new();
                let mut i: usize = 0;
                while i < xs.len()
                    invariant
                        i <= xs.len(),
                        view_values(out@) == view_values(xs@.take(i as int)),
                        out@.len() == i,
                    decreases xs.len() - i,
                {
                    proof {
                        assert(*xs == self->List_0);
                        assert(decreases_to!(*self => self->List_0));
                        assert(decreases_to!(self->List_0 => self->List_0@));
                        assert(decreases_to!(self->List_0@ => self->List_0@[i as int]));
                        assert(xs@[i as int] == self->List_0@[i as int]);
                    }
                    let d = xs[i].deep_dup();
                    let ghost prev = out@;
                    out.push(d);
                    proof {
                        assert(out@.drop_last() =~= prev);
                        assert(xs@.take(i + 1 as int).drop_last() =~= xs@.take(i as int));
                        assert(xs@.take(i + 1 as int).last() == xs@[i as int]);
                    }
                    i = i + 1;
                }
                proof {
                    assert(xs@.take(xs@.len() as int) =~= xs@);
                }
                Value::List(out)
            },
            Value::Mapping(es) => {
                let mut out: Vec<(String, Value)> = Vec::new();
                let mut i: usize = 0;
                while i < es.len()
                    invariant
                        i <= es.len(),
                        view_entries(out@) == view_entries(es@.take(i as int)),
                        out@.len() == i,
                    decreases es.len() - i,
                {
                    let k = es[i].0.clone();
                    proof {
                        assert(*es == self->Mapping_0);
                        assert(decreases_to!(*self => self->Mapping_0));
                        assert(decreases_to!(self->Mapping_0 => self->Mapping_0@));
                        assert(decreases_to!(self->Mapping_0@ => self->Mapping_0@[i as int]));
                        assert(decreases_to!(self->Mapping_0@[i as int] => self->Mapping_0@[i as int].1));
                        assert(es@[i as int].1 == self->Mapping_0@[i as int].1);
                    }
                    let d = es[i].1.deep_dup();
                    let ghost prev = out@;
                    out.push((k, d));
                    proof {
                        assert(out@.drop_last() =~= prev);
                        assert(es@.take(i + 1 as int).drop_last() =~= es@.take(i as int));
                        assert(es@.take(i + 1 as int).last() == es@[i as int]);
                    }
                    i = i + 1;
                }
                proof {
                    assert(es@.take(es@.len() as int) =~= es@);
                }
                Value::Mapping(out)
            },
        }
    }
}

/// Borrow the value stored under `key` among mapping entries, at the
/// first entry whose key matches.
#[verifier::loop_isolation(false)]
pub fn lookup_entry<'a>(es: &'a Vec<(String, Value)>, key: &String) -> (r: Option<&'a Value>)
    ensures
        match r {
            Some(v) => spec_lookup(view_entries(es@), key@) == Some(v@)
                && exists|j: int| 0 <= j < es@.len() && *v == #[trigger] es@[j].1,
            None => spec_lookup(view_entries(es@), key@) is None,
        },
{
    proof {
        lemma_view_entries(es@);
    }
    let ghost full = view_entries(es@);
    proof {
        assert(full.skip(0) =~= full);
    }
    let mut i: usize = 0;
    while i < es.len()
        invariant
            i <= es.len(),
            full == view_entries(es@),
            full.len() == es@.len(),
            forall|j: int| 0 <= j < es@.len() ==> full[j] == (#[trigger] es@[j].0@, es@[j].1.view()),
            spec_lookup(full, key@) == spec_lookup(full.skip(i as int), key@),
        decreases es.len() - i,
    {
        if es[i].0 == *key {
            proof {
                assert(full.skip(i as int)[0] == full[i as int]);
            }
            return Some(&es[i].1);
        }
        proof {
            assert(full.skip(i as int)[0] == full[i as int]);
            assert(full.skip(i as int).skip(1) =~= full.skip(i + 1 as int));
        }
        i = i + 1;
    }
    proof {
        assert(full.skip(es@.len() as int) =~= Seq::<(Seq<char>, SpecValue)>::empty());
    }
    None
}

/// The top-level keys of a document, in order.
#[verifier::loop_isolation(false)]
pub fn top_keys(v: &Value) -> (r: Vec<String>)
    ensures
        r@.map_values(|k: String| k@) == spec_top_keys(v@),
{
    match v {
        Value::Mapping(es) => {
            proof {
                lemma_view_entries(es@);
            }
            let mut out: Vec<String> = Vec::new();
            let mut i: usize = 0;
            while i < es.len()
                invariant
                    i <= es.len(),
                    out@.len() == i,
                    forall|j: int| 0 <= j < i ==> #[trigger] out@[j]@ == es@[j].0@,
                decreases es.len() - i,
            {
                let k = es[i].0.clone();
                out.push(k);
                i = i + 1;
            }
            proof {
                assert(out@.map_values(|k: String| k@) =~= spec_top_keys(v@));
            }
            out
        },
        _ => {
            let out: Vec<String> = Vec::new();
            proof {
                assert(out@.map_values(|k: String| k@) =~= spec_top_keys(v@));
            }
            out
        },
    }
}

} // verus!
