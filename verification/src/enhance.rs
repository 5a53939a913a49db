//! The profile chain engine: folds the active chain of merge patches and
//! script steps over the base profile's document, producing the merged
//! document, the provenance of its top-level keys, and a per-step log.
//!
//! Script steps run outside this crate; the engine exposes an explicit
//! stepper. Whenever an enabled script item is next, the caller runs the
//! script against the current document and hands the outcome back:
//! either the transformed document with a diagnostic message, or an
//! error message. A failed script leaves the accumulator untouched, is
//! logged as the step's failure, and the chain continues.

use crate::doc::{spec_lookup, spec_keys, spec_top_keys, top_keys, SpecValue, Value};
use crate::merge::{lemma_merge_lookup, lemma_merge_scalar_wins, merge, spec_merge};
use crate::profiles::{
    spec_has_item, spec_item_lookup, IProfiles, PrfItem, PrfKind, SpecItem, SpecProfiles,
};
use crate::runtime::{ChainLog, KeyOrigin, Origin, SpecChainLog, SpecKeyOrigin, SpecOrigin};
use vstd::prelude::*;

verus! {

/// Why the chain could not even start, or could not finish here.
#[derive(Clone, Copy, Debug, PartialEq, Eq, Structural)]
pub enum EnhanceError {
    /// The registry designates no current base profile.
    NoCurrentProfile,
    /// The designated base profile is not among the items.
    ProfileNotFound,
    /// An enabled script item is next; only the stepper can take the
    /// chain past it.
    ScriptPending,
}

/// Key origins recorded for a run of keys, all from the same step.
pub open spec fn spec_key_origins(keys: Seq<Seq<char>>, origin: SpecOrigin) -> Seq<SpecKeyOrigin> {
    keys.map_values(|k: Seq<char>| SpecKeyOrigin { key: k, origin })
}

/// The provenance log after a step that set `keys`.
pub open spec fn spec_record_keys(
    os: Seq<SpecKeyOrigin>,
    keys: Seq<Seq<char>>,
    origin: SpecOrigin,
) -> Seq<SpecKeyOrigin> {
    os + spec_key_origins(keys, origin)
}

/// The most recent origin recorded for `k`.
pub open spec fn spec_origin_lookup_last(os: Seq<SpecKeyOrigin>, k: Seq<char>) -> Option<
    SpecOrigin,
>
    decreases os,
{
    if os.len() == 0 {
        None
    } else if os.last().key == k {
        Some(os.last().origin)
    } else {
        spec_origin_lookup_last(os.drop_last(), k)
    }
}

/// Recording a step's keys makes that step the most recent origin of
/// exactly those keys; every other key keeps its previous origin.
pub proof fn lemma_lookup_last_record(
    os: Seq<SpecKeyOrigin>,
    keys: Seq<Seq<char>>,
    origin: SpecOrigin,
    k: Seq<char>,
)
    ensures
        spec_origin_lookup_last(spec_record_keys(os, keys, origin), k) == (if keys.contains(k) {
            Some(origin)
        } else {
            spec_origin_lookup_last(os, k)
        }),
    decreases keys,
{
    let t = spec_record_keys(os, keys, origin);
    if keys.len() == 0 {
        assert(t =~= os);
        assert(!keys.contains(k));
    } else {
        assert(t.len() == os.len() + keys.len());
        assert(t.last() == spec_key_origins(keys, origin)[keys.len() - 1]);
        assert(t.last() == SpecKeyOrigin { key: keys.last(), origin });
        if keys.last() == k {
            assert(keys.contains(k));
        } else {
            assert(t.drop_last() =~= spec_record_keys(os, keys.drop_last(), origin));
            lemma_lookup_last_record(os, keys.drop_last(), origin, k);
            assert(keys.contains(k) == keys.drop_last().contains(k)) by {
                if keys.contains(k) {
                    let i = choose|i: int| 0 <= i < keys.len() && keys[i] == k;
                    assert(keys.drop_last()[i] == k);
                }
                if keys.drop_last().contains(k) {
                    let i = choose|i: int|
                        0 <= i < keys.drop_last().len() && keys.drop_last()[i] == k;
                    assert(keys[i] == k);
                }
            }
        }
    }
}

/// A key that a mapping's entries hold is among the mapping's keys.
pub proof fn lemma_lookup_in_keys(es: Seq<(Seq<char>, SpecValue)>, k: Seq<char>)
    ensures
        spec_lookup(es, k) is Some ==> spec_keys(es).contains(k),
    decreases es,
{
    if es.len() > 0 && spec_lookup(es, k) is Some {
        if es[0].0 == k {
            assert(spec_keys(es)[0] == k);
        } else {
            lemma_lookup_in_keys(es.skip(1), k);
            if spec_keys(es.skip(1)).contains(k) {
                let i = choose|i: int|
                    0 <= i < es.skip(1).len() && spec_keys(es.skip(1))[i] == k;
                assert(spec_keys(es)[i + 1] == es[i + 1].0);
                assert(es.skip(1)[i].0 == es[i + 1].0);
            }
        }
    }
}

/// The engine's mathematical state: the resolved chain, the position of
/// the next item, the accumulator document, the provenance log, and the
/// per-step log.
#[verifier::ext_equal]
pub struct SpecEnhancer {
    pub items: Seq<SpecItem>,
    pub idx: int,
    pub doc: SpecValue,
    pub origins: Seq<SpecKeyOrigin>,
    pub logs: Seq<SpecChainLog>,
}

/// The engine's position is inside the chain.
pub open spec fn spec_wf(s: SpecEnhancer) -> bool {
    0 <= s.idx <= s.items.len()
}

/// Every chain item has been processed.
pub open spec fn spec_done(s: SpecEnhancer) -> bool {
    s.idx >= s.items.len()
}

/// The next item is an enabled script: the caller must run it and hand
/// the outcome to `step_script`.
pub open spec fn spec_needs_script(s: SpecEnhancer) -> bool {
    !spec_done(s) && 0 <= s.idx && s.items[s.idx].enabled && s.items[s.idx].kind
        == PrfKind::Script
}

/// One chain step that needs no outside work. A disabled item is skipped
/// with no log entry; so is an item of a kind the chain does not apply
/// (a base item listed in the chain). An enabled merge item deep-merges
/// its patch into the accumulator, records itself as origin of the
/// patch's top-level keys, and logs success.
pub open spec fn spec_step_auto(s: SpecEnhancer) -> SpecEnhancer {
    let it = s.items[s.idx];
    if it.enabled && it.kind == PrfKind::Merge {
        SpecEnhancer {
            items: s.items,
            idx: s.idx + 1,
            doc: spec_merge(s.doc, it.doc),
            origins: spec_record_keys(s.origins, spec_top_keys(it.doc), SpecOrigin::Item(it.uid)),
            logs: s.logs.push(
                SpecChainLog {
                    uid: it.uid,
                    ok: true,
                    message: Seq::empty(),
                    keys: spec_top_keys(it.doc),
                },
            ),
        }
    } else {
        SpecEnhancer { idx: s.idx + 1, ..s }
    }
}

/// One script step, from the outcome the caller got out of the script
/// runner. Success replaces the accumulator with the returned document,
/// records the step as origin of that document's top-level keys, and
/// logs the diagnostic. Failure leaves the accumulator and provenance
/// exactly as they were, logs the one failure, and moves on.
pub open spec fn spec_step_script(
    s: SpecEnhancer,
    outcome: Result<(SpecValue, Seq<char>), Seq<char>>,
) -> SpecEnhancer {
    let it = s.items[s.idx];
    match outcome {
        Ok((nd, msg)) => SpecEnhancer {
            items: s.items,
            idx: s.idx + 1,
            doc: nd,
            origins: spec_record_keys(s.origins, spec_top_keys(nd), SpecOrigin::Item(it.uid)),
            logs: s.logs.push(
                SpecChainLog { uid: it.uid, ok: true, message: msg, keys: spec_top_keys(nd) },
            ),
        },
        Err(msg) => SpecEnhancer {
            items: s.items,
            idx: s.idx + 1,
            doc: s.doc,
            origins: s.origins,
            logs: s.logs.push(
                SpecChainLog { uid: it.uid, ok: false, message: msg, keys: Seq::empty() },
            ),
        },
    }
}

/// Run every step that needs no outside work, stopping at the end of the
/// chain or at the first enabled script item.
pub open spec fn spec_run_auto(s: SpecEnhancer) -> SpecEnhancer
    decreases s.items.len() - s.idx,
{
    if spec_done(s) || spec_needs_script(s) {
        s
    } else {
        spec_run_auto(spec_step_auto(s))
    }
}

/// The chain identifiers resolved against the items, in chain order;
/// identifiers no item carries are dropped.
pub open spec fn spec_resolve_chain(items: Seq<SpecItem>, chain: Seq<Seq<char>>) -> Seq<SpecItem>
    decreases chain,
{
    if chain.len() == 0 {
        Seq::empty()
    } else {
        spec_resolve_chain(items, chain.drop_last()) + (match spec_item_lookup(
            items,
            chain.last(),
        ) {
            Some(it) => seq![it],
            None => Seq::empty(),
        })
    }
}

/// Whether the registry designates a base profile that exists.
pub open spec fn spec_can_resolve(p: SpecProfiles) -> bool {
    match p.current {
        Some(cur) => spec_has_item(p.items, cur),
        None => false,
    }
}

/// The engine's starting state for a registry: the base profile's
/// document as accumulator, the base recorded as origin of its top-level
/// keys, the resolved chain ahead, nothing logged yet. Meaningful only
/// when the registry resolves.
pub open spec fn spec_init(p: SpecProfiles) -> SpecEnhancer {
    match p.current {
        Some(cur) => match spec_item_lookup(p.items, cur) {
            Some(base) => SpecEnhancer {
                items: spec_resolve_chain(p.items, p.chain),
                idx: 0,
                doc: base.doc,
                origins: spec_key_origins(spec_top_keys(base.doc), SpecOrigin::Base),
                logs: Seq::empty(),
            },
            None => SpecEnhancer {
                items: Seq::empty(),
                idx: 0,
                doc: SpecValue::Null,
                origins: Seq::empty(),
                logs: Seq::empty(),
            },
        },
        None => SpecEnhancer {
            items: Seq::empty(),
            idx: 0,
            doc: SpecValue::Null,
            origins: Seq::empty(),
            logs: Seq::empty(),
        },
    }
}

/// The engine's final state for a registry whose chain holds no enabled
/// script item.
pub open spec fn spec_enhance(p: SpecProfiles) -> SpecEnhancer {
    spec_run_auto(spec_init(p))
}

/// The provenance record the finished engine reports: every top-level
/// key of the final document, with the most recent step that set it (the
/// base profile, where no chain step ever did).
pub open spec fn spec_exists_keys(s: SpecEnhancer) -> Seq<SpecKeyOrigin> {
    spec_top_keys(s.doc).map_values(
        |k: Seq<char>| SpecKeyOrigin {
            key: k,
            origin: match spec_origin_lookup_last(s.origins, k) {
                Some(o) => o,
                None => SpecOrigin::Base,
            },
        },
    )
}

/// The chain engine, as an explicit stepper.
#[derive(Debug)]
pub struct Enhancer {
    items: Vec<PrfItem>,
    idx: usize,
    doc: Value,
    origins: Vec<KeyOrigin>,
    logs: Vec<ChainLog>,
}

impl View for Enhancer {
    type V = SpecEnhancer;

    closed spec fn view(&self) -> SpecEnhancer {
        SpecEnhancer {
            items: self.items@.map_values(|it: PrfItem| it@),
            idx: self.idx as int,
            doc: self.doc@,
            origins: self.origins@.map_values(|o: KeyOrigin| o@),
            logs: self.logs@.map_values(|l: ChainLog| l@),
        }
    }
}

/// Append one origin record per key, all naming the same step.
#[verifier::loop_isolation(false)]
fn record_key_origins(os: &mut Vec<KeyOrigin>, keys: &Vec<String>, origin: &Origin)
    ensures
        final(os)@.map_values(|o: KeyOrigin| o@) == spec_record_keys(
            old(os)@.map_values(|o: KeyOrigin| o@),
            keys@.map_values(|k: String| k@),
            origin@,
        ),
{
    let ghost base = os@.map_values(|o: KeyOrigin| o@);
    let ghost keysv = keys@.map_values(|k: String| k@);
    let mut i: usize = 0;
    proof {
        assert(os@.map_values(|o: KeyOrigin| o@) =~= spec_record_keys(
            base,
            keysv.take(0),
            origin@,
        ));
    }
    while i < keys.len()
        invariant
            i <= keys.len(),
            os@.map_values(|o: KeyOrigin| o@) == spec_record_keys(base, keysv.take(i as int), origin@),
        decreases keys.len() - i,
    {
        let rec = KeyOrigin { key: keys[i].clone(), origin: origin.duplicate() };
        let ghost prev = os@;
        os.push(rec);
        proof {
            assert(os@ == prev.push(rec));
            assert(rec@ == SpecKeyOrigin { key: keysv[i as int], origin: origin@ });
            let mapped = os@.map_values(|o: KeyOrigin| o@);
            let target = spec_record_keys(base, keysv.take(i + 1 as int), origin@);
            assert forall|j: int| 0 <= j < mapped.len() implies #[trigger] mapped[j]
                == target[j] by {
                if j < prev.len() {
                    assert(os@[j] == prev[j]);
                    assert(prev.map_values(|o: KeyOrigin| o@)[j] == prev[j]@);
                }
            }
            assert(mapped =~= target);
        }
        i = i + 1;
    }
    proof {
        assert(keysv.take(keys@.len() as int) =~= keysv);
    }
}

/// The most recent origin recorded for `key`, copied out.
#[verifier::loop_isolation(false)]
fn origin_lookup_last(os: &Vec<KeyOrigin>, key: &String) -> (r: Option<Origin>)
    ensures
        match r {
            Some(o) => spec_origin_lookup_last(os@.map_values(|x: KeyOrigin| x@), key@) == Some(
                o@,
            ),
            None => spec_origin_lookup_last(os@.map_values(|x: KeyOrigin| x@), key@) is None,
        },
{
    let ghost full = os@.map_values(|x: KeyOrigin| x@);
    proof {
        assert(full.take(os@.len() as int) =~= full);
    }
    let mut i: usize = os.len();
    while i > 0
        invariant
            i <= os.len(),
            spec_origin_lookup_last(full, key@) == spec_origin_lookup_last(
                full.take(i as int),
                key@,
            ),
        decreases i,
    {
        proof {
            assert(full.take(i as int).last() == full[i - 1]);
            assert(full.take(i as int).drop_last() =~= full.take(i - 1));
        }
        if os[i - 1].key == *key {
            return Some(os[i - 1].origin.duplicate());
        }
        i = i - 1;
    }
    proof {
        assert(full.take(0) =~= Seq::<SpecKeyOrigin>::empty());
    }
    None
}

impl Enhancer {
    /// Resolve the registry: the designated current profile becomes the
    /// base accumulator, the chain identifiers become the items ahead.
    /// Fails exactly when no current profile is designated or the
    /// designated one is missing.
    #[verifier::loop_isolation(false)]
    pub fn new(profiles: &IProfiles) -> (r: Result<Enhancer, EnhanceError>)
        ensures
            match r {
                Ok(e) => spec_can_resolve(profiles@) && e@ == spec_init(profiles@) && spec_wf(e@),
                Err(err) => match err {
                    EnhanceError::NoCurrentProfile => profiles@.current is None,
                    EnhanceError::ProfileNotFound => profiles@.current matches Some(cur)
                        && !spec_has_item(profiles@.items, cur),
                    EnhanceError::ScriptPending => false,
                },
            },
    {
        let base = match &profiles.current {
            Some(cur) => match profiles.get_item(cur) {
                Ok(it) => it,
                Err(_) => {
                    return Err(EnhanceError::ProfileNotFound);
                },
            },
            None => {
                return Err(EnhanceError::NoCurrentProfile);
            },
        };
        let doc = base.doc.deep_dup();
        let keys = top_keys(&base.doc);
        let mut origins: Vec<KeyOrigin> = Vec::new();
        let origin_base = Origin::Base;
        record_key_origins(&mut origins, &keys, &origin_base);
        let ghost chainv = profiles@.chain;
        let ghost itemsv = profiles@.items;
        let mut items: Vec<PrfItem> = Vec::new();
        let mut i: usize = 0;
        proof {
            assert(items@.map_values(|it: PrfItem| it@) =~= spec_resolve_chain(
                itemsv,
                chainv.take(0),
            ));
        }
        while i < profiles.chain.len()
            invariant
                i <= profiles.chain.len(),
                items@.map_values(|it: PrfItem| it@) == spec_resolve_chain(
                    itemsv,
                    chainv.take(i as int),
                ),
            decreases profiles.chain.len() - i,
        {
            proof {
                assert(chainv.take(i + 1 as int).drop_last() =~= chainv.take(i as int));
                assert(chainv.take(i + 1 as int).last() == chainv[i as int]);
                assert(chainv[i as int] == profiles.chain@[i as int]@);
            }
            match profiles.get_item(&profiles.chain[i]) {
                Ok(it) => {
                    let d = it.duplicate();
                    items.push(d);
                    proof {
                        assert(items@.map_values(|it: PrfItem| it@) =~= spec_resolve_chain(
                            itemsv,
                            chainv.take(i + 1 as int),
                        ));
                    }
                },
                Err(_) => {
                    proof {
                        assert(items@.map_values(|it: PrfItem| it@) =~= spec_resolve_chain(
                            itemsv,
                            chainv.take(i + 1 as int),
                        ));
                    }
                },
            }
            i = i + 1;
        }
        proof {
            assert(chainv.take(chainv.len() as int) =~= chainv);
        }
        let e = Enhancer { items, idx: 0, doc, origins, logs: Vec::new() };
        proof {
            assert(e@.logs =~= Seq::<SpecChainLog>::empty());
            assert(e@ =~= spec_init(profiles@));
        }
        Ok(e)
    }

    /// Whether every chain item has been processed.
    pub fn is_done(&self) -> (r: bool)
        ensures
            r == spec_done(self@),
    {
        self.idx >= self.items.len()
    }

    /// Whether the next item is an enabled script, waiting for the
    /// caller to run it.
    pub fn pending_script(&self) -> (r: bool)
        ensures
            r == spec_needs_script(self@),
    {
        self.idx < self.items.len() && self.items[self.idx].enabled && self.items[self.idx].kind
            == PrfKind::Script
    }

    /// The source text of the pending script item.
    pub fn script_source(&self) -> (r: &String)
        requires
            spec_needs_script(self@),
        ensures
            r@ == self@.items[self@.idx].script,
    {
        &self.items[self.idx].script
    }

    /// The accumulator document as it stands.
    pub fn current_doc(&self) -> (r: &Value)
        ensures
            r@ == self@.doc,
    {
        &self.doc
    }

    /// Process one item that needs no outside work.
    pub fn step_auto(&mut self)
        requires
            spec_wf(old(self)@),
            !spec_done(old(self)@),
            !spec_needs_script(old(self)@),
        ensures
            final(self)@ == spec_step_auto(old(self)@),
            spec_wf(final(self)@),
    {
        let n = self.items.len();
        let enabled = self.items[self.idx].enabled;
        let is_merge = self.items[self.idx].kind == PrfKind::Merge;
        if enabled && is_merge {
            let keys = top_keys(&self.items[self.idx].doc);
            let merged = merge(&self.doc, &self.items[self.idx].doc);
            let uid = self.items[self.idx].uid.clone();
            let step_origin = Origin::Item(uid.clone());
            record_key_origins(&mut self.origins, &keys, &step_origin);
            let ghost prev_logs = self.logs@.map_values(|l: ChainLog| l@);
            self.logs.push(ChainLog { uid, ok: true, message: String::new(), keys });
            proof {
                assert(self.logs@.map_values(|l: ChainLog| l@) =~= prev_logs.push(
                    self.logs@.last()@,
                ));
            }
            self.doc = merged;
            self.idx = self.idx + 1;
            proof {
                assert(final(self)@ =~= spec_step_auto(old(self)@));
            }
        } else {
            self.idx = self.idx + 1;
            proof {
                assert(final(self)@ =~= spec_step_auto(old(self)@));
            }
        }
    }

    /// Hand back the outcome of running the pending script. On success
    /// the returned document becomes the accumulator and the step is
    /// logged with its diagnostic; on failure the accumulator and the
    /// provenance are exactly what they were before the step, the one
    /// failure is logged, and the chain moves on.
    pub fn step_script(&mut self, outcome: Result<(Value, String), String>)
        requires
            spec_wf(old(self)@),
            spec_needs_script(old(self)@),
        ensures
            ({
                let oc = match outcome {
                    Ok((d, m)) => Ok::<(SpecValue, Seq<char>), Seq<char>>((d@, m@)),
                    Err(m) => Err(m@),
                };
                final(self)@ == spec_step_script(old(self)@, oc)
            }),
            spec_wf(final(self)@),
    {
        let ghost oc = match &outcome {
            Ok((d, m)) => Ok::<(SpecValue, Seq<char>), Seq<char>>((d@, m@)),
            Err(m) => Err(m@),
        };
        let n = self.items.len();
        let uid = self.items[self.idx].uid.clone();
        match outcome {
            Ok((nd, msg)) => {
                let keys = top_keys(&nd);
                let step_origin = Origin::Item(uid.clone());
                record_key_origins(&mut self.origins, &keys, &step_origin);
                let ghost prev_logs = self.logs@.map_values(|l: ChainLog| l@);
                self.logs.push(ChainLog { uid, ok: true, message: msg, keys });
                proof {
                    assert(self.logs@.map_values(|l: ChainLog| l@) =~= prev_logs.push(
                        self.logs@.last()@,
                    ));
                }
                self.doc = nd;
                self.idx = self.idx + 1;
            },
            Err(msg) => {
                let ghost prev_logs = self.logs@.map_values(|l: ChainLog| l@);
                let keys: Vec<String> = Vec::new();
                self.logs.push(ChainLog { uid, ok: false, message: msg, keys });
                proof {
                    assert(self.logs@.last()@.keys =~= Seq::<Seq<char>>::empty());
                    assert(self.logs@.map_values(|l: ChainLog| l@) =~= prev_logs.push(
                        self.logs@.last()@,
                    ));
                }
                self.idx = self.idx + 1;
            },
        }
        proof {
            assert(final(self)@ =~= spec_step_script(old(self)@, oc));
        }
    }

    /// Run every step that needs no outside work: stop at the end of the
    /// chain or at the first enabled script item.
    pub fn run_auto(&mut self)
        requires
            spec_wf(old(self)@),
        ensures
            final(self)@ == spec_run_auto(old(self)@),
            spec_wf(final(self)@),
            spec_done(final(self)@) || spec_needs_script(final(self)@),
    {
        while !self.is_done() && !self.pending_script()
            invariant
                spec_wf(self@),
                spec_run_auto(self@) == spec_run_auto(old(self)@),
            decreases self@.items.len() - self@.idx,
        {
            self.step_auto();
        }
    }

    /// Tear the finished engine apart into the merged document, the
    /// provenance of its top-level keys, and the per-step log.
    #[verifier::loop_isolation(false)]
    pub fn finish(self) -> (r: (Value, Vec<KeyOrigin>, Vec<ChainLog>))
        requires
            spec_done(self@),
        ensures
            r.0@ == self@.doc,
            r.1@.map_values(|k: KeyOrigin| k@) == spec_exists_keys(self@),
            r.2@.map_values(|l: ChainLog| l@) == self@.logs,
    {
        let keys = top_keys(&self.doc);
        let ghost target = spec_exists_keys(self@);
        let mut exists_keys: Vec<KeyOrigin> = Vec::new();
        let mut i: usize = 0;
        while i < keys.len()
            invariant
                i <= keys.len(),
                keys@.map_values(|k: String| k@) == spec_top_keys(self@.doc),
                target == spec_exists_keys(self@),
                target.len() == keys@.len(),
                exists_keys@.len() == i,
                forall|j: int| 0 <= j < i ==> #[trigger] exists_keys@[j]@ == target[j],
            decreases keys.len() - i,
        {
            let origin = match origin_lookup_last(&self.origins, &keys[i]) {
                Some(o) => o,
                None => Origin::Base,
            };
            exists_keys.push(KeyOrigin { key: keys[i].clone(), origin });
            i = i + 1;
        }
        proof {
            assert(exists_keys@.map_values(|k: KeyOrigin| k@) =~= target);
        }
        let Enhancer { doc, logs, .. } = self;
        (doc, exists_keys, logs)
    }
}

/// Run the whole chain in one call, for registries whose chain holds no
/// enabled script item. Everything the stepper would log or record is
/// returned; an enabled script item is reported as `ScriptPending`.
pub fn enhance(profiles: &IProfiles) -> (r: Result<
    (Value, Vec<KeyOrigin>, Vec<ChainLog>),
    EnhanceError,
>)
    ensures
        match r {
            Ok(out) => spec_can_resolve(profiles@) && spec_done(spec_enhance(profiles@))
                && out.0@ == spec_enhance(profiles@).doc && out.1@.map_values(|k: KeyOrigin| k@)
                == spec_exists_keys(spec_enhance(profiles@)) && out.2@.map_values(
                |l: ChainLog| l@,
            ) == spec_enhance(profiles@).logs,
            Err(err) => match err {
                EnhanceError::NoCurrentProfile => profiles@.current is None,
                EnhanceError::ProfileNotFound => profiles@.current matches Some(cur)
                    && !spec_has_item(profiles@.items, cur),
                EnhanceError::ScriptPending => spec_can_resolve(profiles@) && !spec_done(
                    spec_enhance(profiles@),
                ),
            },
        },
{
    let mut e = match Enhancer::new(profiles) {
        Ok(e) => e,
        Err(err) => {
            return Err(err);
        },
    };
    e.run_auto();
    if e.pending_script() {
        return Err(EnhanceError::ScriptPending);
    }
    Ok(e.finish())
}

/// Determinism: the engine's outcome is a function of the registry's
/// shape alone, so re-running it over an unchanged base profile and
/// chain yields an identical merged document, provenance and log.
pub proof fn lemma_enhance_deterministic(p1: SpecProfiles, p2: SpecProfiles)
    requires
        p1 == p2,
    ensures
        spec_enhance(p1) == spec_enhance(p2),
        spec_exists_keys(spec_enhance(p1)) == spec_exists_keys(spec_enhance(p2)),
{
}

/// A disabled item never wins: when a disabled item is followed by an
/// enabled merge item whose patch sets the top-level key `k` to the
/// non-mapping value `v`, then after both steps the accumulator holds
/// `v` under `k`, and the provenance attributes `k` to the enabled item,
/// not the disabled one.
pub proof fn lemma_disabled_item_does_not_win(s: SpecEnhancer, k: Seq<char>, v: SpecValue)
    requires
        spec_wf(s),
        s.idx + 2 <= s.items.len(),
        !s.items[s.idx].enabled,
        s.items[s.idx + 1].enabled,
        s.items[s.idx + 1].kind == PrfKind::Merge,
        s.items[s.idx + 1].doc is Mapping,
        spec_lookup(s.items[s.idx + 1].doc->Mapping_0, k) == Some(v),
        !(v is Mapping),
        s.doc is Mapping,
    ensures
        ({
            let s2 = spec_step_auto(spec_step_auto(s));
            &&& s2.doc is Mapping
            &&& spec_lookup(s2.doc->Mapping_0, k) == Some(v)
            &&& spec_origin_lookup_last(s2.origins, k) == Some(
                SpecOrigin::Item(s.items[s.idx + 1].uid),
            )
        }),
{
    let s1 = spec_step_auto(s);
    assert(s1.doc == s.doc && s1.origins == s.origins && s1.idx == s.idx + 1);
    let m = s.items[s.idx + 1];
    let s2 = spec_step_auto(s1);
    let bs = s.doc->Mapping_0;
    let ps = m.doc->Mapping_0;
    assert(s2.doc == spec_merge(s.doc, m.doc));
    lemma_merge_lookup(bs, ps, k);
    match spec_lookup(bs, k) {
        Some(bv) => {
            lemma_merge_scalar_wins(bv, v);
        },
        None => {
        },
    }
    lemma_lookup_in_keys(ps, k);
    lemma_lookup_last_record(s.origins, spec_top_keys(m.doc), SpecOrigin::Item(m.uid), k);
}

/// A failed script step is isolated: the accumulator and the provenance
/// are exactly what they were before the step, exactly one failure entry
/// is logged for it, and the engine moves on to the items after it.
pub proof fn lemma_failed_script_is_isolated(s: SpecEnhancer, msg: Seq<char>)
    requires
        spec_wf(s),
        spec_needs_script(s),
    ensures
        ({
            let s2 = spec_step_script(s, Err(msg));
            &&& s2.doc == s.doc
            &&& s2.origins == s.origins
            &&& s2.items == s.items
            &&& s2.idx == s.idx + 1
            &&& s2.logs == s.logs.push(
                SpecChainLog {
                    uid: s.items[s.idx].uid,
                    ok: false,
                    message: msg,
                    keys: Seq::empty(),
                },
            )
        }),
{
}

} // verus!
