//! Deep key-wise merge of configuration documents.
//!
//! The merge policy: when both sides are mappings, they are merged
//! key-wise and recursively; any other patch value (scalar or list)
//! replaces the base value wholesale. Keys absent from the patch are left
//! untouched; keys new in the patch are appended in patch order.

use crate::doc::{
    lemma_view_entries, lookup_entry, spec_has_key, spec_lookup, view_entries, SpecValue, Value,
};
use vstd::prelude::*;

verus! {

/// Patch entries whose keys do not occur in the base: they are appended
/// after the base's entries, in patch order.
pub open spec fn spec_fresh_entries(
    bs: Seq<(Seq<char>, SpecValue)>,
    ps: Seq<(Seq<char>, SpecValue)>,
) -> Seq<(Seq<char>, SpecValue)>
    decreases ps,
{
    if ps.len() == 0 {
        Seq::empty()
    } else {
        let rest = spec_fresh_entries(bs, ps.drop_last());
        if spec_has_key(bs, ps.last().0) {
            rest
        } else {
            rest.push(ps.last())
        }
    }
}

/// The base's entries, each merged with the patch value under the same
/// key where the patch has one; order and keys are kept.
pub open spec fn spec_merged_bases(
    bs: Seq<(Seq<char>, SpecValue)>,
    ps: Seq<(Seq<char>, SpecValue)>,
) -> Seq<(Seq<char>, SpecValue)>
    decreases bs,
{
    if bs.len() == 0 {
        Seq::empty()
    } else {
        let e = bs.last();
        let m = match spec_lookup(ps, e.0) {
            Some(pv) => (e.0, spec_merge(e.1, pv)),
            None => e,
        };
        spec_merged_bases(bs.drop_last(), ps).push(m)
    }
}

/// Deep key-wise merge: two mappings merge recursively, anything else in
/// the patch replaces the base value.
pub open spec fn spec_merge(b: SpecValue, p: SpecValue) -> SpecValue
    decreases b,
{
    match b {
        SpecValue::Mapping(bs) => match p {
            SpecValue::Mapping(ps) => SpecValue::Mapping(
                spec_merged_bases(bs, ps) + spec_fresh_entries(bs, ps),
            ),
            _ => p,
        },
        _ => p,
    }
}

/// Element-wise shape of `spec_merged_bases`.
pub proof fn lemma_merged_bases_elems(
    bs: Seq<(Seq<char>, SpecValue)>,
    ps: Seq<(Seq<char>, SpecValue)>,
)
    ensures
        spec_merged_bases(bs, ps).len() == bs.len(),
        forall|i: int| 0 <= i < bs.len() ==> #[trigger] spec_merged_bases(bs, ps)[i] == (match spec_lookup(ps, bs[i].0) {
            Some(pv) => (bs[i].0, spec_merge(bs[i].1, pv)),
            None => bs[i],
        }),
    decreases bs,
{
    if bs.len() > 0 {
        lemma_merged_bases_elems(bs.drop_last(), ps);
        assert forall|i: int| 0 <= i < bs.len() implies #[trigger] spec_merged_bases(bs, ps)[i] == (
        match spec_lookup(ps, bs[i].0) {
            Some(pv) => (bs[i].0, spec_merge(bs[i].1, pv)),
            None => bs[i],
        }) by {
            if i < bs.len() - 1 {
                assert(bs.drop_last()[i] == bs[i]);
            } else {
                assert(bs[i] == bs.last());
            }
        }
    }
}

/// Looking a key up in an appended run: the left part wins when it has
/// the key.
pub proof fn lemma_lookup_append(
    a: Seq<(Seq<char>, SpecValue)>,
    b: Seq<(Seq<char>, SpecValue)>,
    k: Seq<char>,
)
    ensures
        spec_lookup(a + b, k) == (if spec_has_key(a, k) {
            spec_lookup(a, k)
        } else {
            spec_lookup(b, k)
        }),
    decreases a,
{
    if a.len() == 0 {
        assert(a + b =~= b);
    } else {
        assert((a + b)[0] == a[0]);
        if a[0].0 == k {
        } else {
            assert((a + b).skip(1) =~= a.skip(1) + b);
            lemma_lookup_append(a.skip(1), b, k);
        }
    }
}

/// Looking a key up after a push: an earlier entry still wins.
pub proof fn lemma_lookup_push(
    s: Seq<(Seq<char>, SpecValue)>,
    e: (Seq<char>, SpecValue),
    k: Seq<char>,
)
    ensures
        spec_lookup(s.push(e), k) == (match spec_lookup(s, k) {
            Some(v) => Some(v),
            None => if e.0 == k {
                Some(e.1)
            } else {
                None
            },
        }),
    decreases s,
{
    let t = s.push(e);
    if s.len() == 0 {
        assert(t.len() == 1);
        assert(t[0] == e);
        assert(t.skip(1) =~= Seq::<(Seq<char>, SpecValue)>::empty());
        assert(spec_lookup(s, k) is None);
        if e.0 == k {
            assert(spec_lookup(t, k) == Some(e.1));
        } else {
            assert(spec_lookup(t.skip(1), k) is None);
            assert(spec_lookup(t, k) is None);
        }
    } else {
        assert(t[0] == s[0]);
        if s[0].0 == k {
            assert(spec_lookup(t, k) == Some(s[0].1));
            assert(spec_lookup(s, k) == Some(s[0].1));
        } else {
            assert(t.skip(1) =~= s.skip(1).push(e));
            lemma_lookup_push(s.skip(1), e, k);
            assert(spec_lookup(t, k) == spec_lookup(t.skip(1), k));
            assert(spec_lookup(s, k) == spec_lookup(s.skip(1), k));
        }
    }
}

/// What `spec_merged_bases` holds under a key: the base's first value
/// under that key, merged with the patch's value when there is one.
pub proof fn lemma_merged_bases_lookup(
    bs: Seq<(Seq<char>, SpecValue)>,
    ps: Seq<(Seq<char>, SpecValue)>,
    k: Seq<char>,
)
    ensures
        spec_lookup(spec_merged_bases(bs, ps), k) == (match spec_lookup(bs, k) {
            Some(bv) => Some(
                match spec_lookup(ps, k) {
                    Some(pv) => spec_merge(bv, pv),
                    None => bv,
                },
            ),
            None => None::<SpecValue>,
        }),
    decreases bs,
{
    lemma_merged_bases_elems(bs, ps);
    if bs.len() > 0 {
        let m = spec_merged_bases(bs, ps);
        if bs[0].0 == k {
            assert(m[0] == (match spec_lookup(ps, bs[0].0) {
                Some(pv) => (bs[0].0, spec_merge(bs[0].1, pv)),
                None => bs[0],
            }));
        } else {
            lemma_merged_bases_lookup(bs.skip(1), ps, k);
            lemma_merged_bases_elems(bs.skip(1), ps);
            assert(m.skip(1) =~= spec_merged_bases(bs.skip(1), ps)) by {
                assert forall|i: int| 0 <= i < m.skip(1).len() implies m.skip(1)[i]
                    == spec_merged_bases(bs.skip(1), ps)[i] by {
                    assert(m.skip(1)[i] == m[i + 1]);
                    assert(bs.skip(1)[i] == bs[i + 1]);
                }
            }
            assert(m[0].0 == bs[0].0);
        }
    }
}

/// What the appended fresh entries hold under a key: nothing when the
/// base has the key, otherwise the patch's first value under it.
pub proof fn lemma_fresh_lookup(
    bs: Seq<(Seq<char>, SpecValue)>,
    ps: Seq<(Seq<char>, SpecValue)>,
    k: Seq<char>,
)
    ensures
        spec_lookup(spec_fresh_entries(bs, ps), k) == (if spec_has_key(bs, k) {
            None::<SpecValue>
        } else {
            spec_lookup(ps, k)
        }),
    decreases ps,
{
    if ps.len() > 0 {
        lemma_fresh_lookup(bs, ps.drop_last(), k);
        let e = ps.last();
        lemma_lookup_push(spec_fresh_entries(bs, ps.drop_last()), e, k);
        assert(ps =~= ps.drop_last().push(e));
        lemma_lookup_push(ps.drop_last(), e, k);
    }
}

/// The law of the merge, read through lookups: for mapping documents, a
/// key's merged value is the patch's where only the patch has it, the
/// base's where only the base has it, the recursive merge where both do.
pub proof fn lemma_merge_lookup(
    bs: Seq<(Seq<char>, SpecValue)>,
    ps: Seq<(Seq<char>, SpecValue)>,
    k: Seq<char>,
)
    ensures
        spec_merge(SpecValue::Mapping(bs), SpecValue::Mapping(ps))
            == SpecValue::Mapping(spec_merged_bases(bs, ps) + spec_fresh_entries(bs, ps)),
        spec_lookup(spec_merged_bases(bs, ps) + spec_fresh_entries(bs, ps), k) == (match (
            spec_lookup(bs, k),
            spec_lookup(ps, k),
        ) {
            (Some(bv), Some(pv)) => Some(spec_merge(bv, pv)),
            (Some(bv), None) => Some(bv),
            (None, Some(pv)) => Some(pv),
            (None, None) => None::<SpecValue>,
        }),
{
    lemma_lookup_append(spec_merged_bases(bs, ps), spec_fresh_entries(bs, ps), k);
    lemma_merged_bases_lookup(bs, ps, k);
    lemma_fresh_lookup(bs, ps, k);
    if spec_has_key(spec_merged_bases(bs, ps), k) != spec_has_key(bs, k) {
        // impossible: merged bases keep exactly the base's keys
        assert(false);
    }
}

/// A patch value that is not itself a mapping always replaces the base's
/// value under that key, whatever the base held there.
pub proof fn lemma_merge_scalar_wins(b: SpecValue, p: SpecValue)
    requires
        !(p is Mapping),
    ensures
        spec_merge(b, p) == p,
{
}

/// Merge two documents. The result's shape is exactly `spec_merge` of the
/// two inputs' shapes, so merging is deterministic: equal-shaped inputs
/// give equal-shaped outputs.
#[verifier::loop_isolation(false)]
pub fn merge(base: &Value, patch: &Value) -> (r: Value)
    ensures
        r@ == spec_merge(base@, patch@),
    decreases base,
{
    match base {
        Value::Mapping(bs) => {
            match patch {
                Value::Mapping(ps) => {
                    let ghost bsv = view_entries(bs@);
                    let ghost psv = view_entries(ps@);
                    proof {
                        lemma_view_entries(bs@);
                        lemma_view_entries(ps@);
                    }
                    let mut out: Vec<(String, Value)> = Vec::new();
                    let mut i: usize = 0;
                    while i < bs.len()
                        invariant
                            i <= bs.len(),
                            view_entries(out@) == spec_merged_bases(bsv.take(i as int), psv),
                        decreases bs.len() - i,
                    {
                        let k = bs[i].0.clone();
                        let looked = lookup_entry(ps, &bs[i].0);
                        let merged: Value = match looked {
                            Some(pv) => {
                                proof {
                                    assert(*bs == base->Mapping_0);
                                    assert(decreases_to!(*base => base->Mapping_0));
                                    assert(decreases_to!(base->Mapping_0 => base->Mapping_0@));
                                    assert(decreases_to!(
                                        base->Mapping_0@ => base->Mapping_0@[i as int]));
                                    assert(decreases_to!(
                                        base->Mapping_0@[i as int]
                                            => base->Mapping_0@[i as int].1));
                                    assert(bs@[i as int].1 == base->Mapping_0@[i as int].1);
                                }
                                merge(&bs[i].1, pv)
                            },
                            None => bs[i].1.deep_dup(),
                        };
                        let ghost prev = out@;
                        out.push((k, merged));
                        proof {
                            assert(out@.drop_last() =~= prev);
                            assert(bsv.take(i + 1 as int).drop_last() =~= bsv.take(i as int));
                            assert(bsv.take(i + 1 as int).last() == bsv[i as int]);
                            assert(bsv[i as int] == (bs@[i as int].0@, bs@[i as int].1.view()));
                        }
                        i = i + 1;
                    }
                    proof {
                        assert(bsv.take(bsv.len() as int) =~= bsv);
                    }
                    let mut j: usize = 0;
                    while j < ps.len()
                        invariant
                            j <= ps.len(),
                            view_entries(out@) == spec_merged_bases(bsv, psv) + spec_fresh_entries(
                                bsv,
                                psv.take(j as int),
                            ),
                        decreases ps.len() - j,
                    {
                        let fresh = lookup_entry(bs, &ps[j].0);
                        proof {
                            assert(psv.take(j + 1 as int).drop_last() =~= psv.take(j as int));
                            assert(psv.take(j + 1 as int).last() == psv[j as int]);
                            assert(psv[j as int] == (ps@[j as int].0@, ps@[j as int].1.view()));
                        }
                        match fresh {
                            Some(_) => {
                                proof {
                                    assert(spec_has_key(bsv, psv[j as int].0));
                                }
                            },
                            None => {
                                let k = ps[j].0.clone();
                                let d = ps[j].1.deep_dup();
                                let ghost prev = out@;
                                out.push((k, d));
                                proof {
                                    assert(out@.drop_last() =~= prev);
                                    assert(view_entries(out@) =~= spec_merged_bases(bsv, psv)
                                        + spec_fresh_entries(bsv, psv.take(j + 1 as int)));
                                }
                            },
                        }
                        j = j + 1;
                    }
                    proof {
                        assert(psv.take(psv.len() as int) =~= psv);
                    }
                    Value::Mapping(out)
                },
                _ => patch.deep_dup(),
            }
        },
        _ => patch.deep_dup(),
    }
}

} // verus!
