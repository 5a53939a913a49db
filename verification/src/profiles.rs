//! The profile registry: profile items and the active chain.

use crate::doc::{SpecValue, Value};
use vstd::prelude::*;
use vstd::string::StringExecFns;

verus! {

/// What a profile item is for: a base document, a merge patch, or a
/// transformation script.
#[derive(Clone, Copy, Debug, PartialEq, Eq, Structural)]
pub enum PrfKind {
    Base,
    Merge,
    Script,
}

/// Why a profile operation failed.
#[derive(Clone, Copy, Debug, PartialEq, Eq, Structural)]
pub enum ProfilesError {
    /// No item carries the requested identifier.
    ItemNotFound,
    /// An item with this identifier already exists.
    DuplicateUid,
}

/// One profile item: a stable identifier, its kind, whether the chain
/// may apply it, its raw content (a parsed document for base and merge
/// items, source text for script items), and the last run's diagnostic.
#[derive(Debug)]
pub struct PrfItem {
    pub uid: String,
    pub kind: PrfKind,
    pub enabled: bool,
    pub doc: Value,
    pub script: String,
    pub diagnostic: Option<String>,
}

/// The mathematical shape of a [`PrfItem`].
#[verifier::ext_equal]
pub struct SpecItem {
    pub uid: Seq<char>,
    pub kind: PrfKind,
    pub enabled: bool,
    pub doc: SpecValue,
    pub script: Seq<char>,
    pub diagnostic: Option<Seq<char>>,
}

impl View for PrfItem {
    type V = SpecItem;

    open spec fn view(&self) -> SpecItem {
        SpecItem {
            uid: self.uid@,
            kind: self.kind,
            enabled: self.enabled,
            doc: self.doc@,
            script: self.script@,
            diagnostic: match self.diagnostic {
                Some(d) => Some(d@),
                None => None,
            },
        }
    }
}

impl PrfItem {
    /// A fresh merge item: enabled, with an empty patch document. Its
    /// identifier is `name`, or `"merge"` when none is given.
    pub fn from_merge(name: Option<String>) -> (r: Result<PrfItem, ProfilesError>)
        ensures
            r matches Ok(item) && item@ == (SpecItem {
                uid: match name {
                    Some(n) => n@,
                    None => "merge"@,
                },
                kind: PrfKind::Merge,
                enabled: true,
                doc: SpecValue::Mapping(Seq::empty()),
                script: Seq::empty(),
                diagnostic: None,
            }),
    {
        let uid = match name {
            Some(n) => n,
            None => String::from_str("merge"),
        };
        Ok(PrfItem {
            uid,
            kind: PrfKind::Merge,
            enabled: true,
            doc: Value::empty_map(),
            script: String::new(),
            diagnostic: None,
        })
    }

    /// A fresh script item: enabled, with empty source text. Its
    /// identifier is `name`, or `"script"` when none is given.
    pub fn from_script(name: Option<String>) -> (r: Result<PrfItem, ProfilesError>)
        ensures
            r matches Ok(item) && item@ == (SpecItem {
                uid: match name {
                    Some(n) => n@,
                    None => "script"@,
                },
                kind: PrfKind::Script,
                enabled: true,
                doc: SpecValue::Mapping(Seq::empty()),
                script: Seq::empty(),
                diagnostic: None,
            }),
    {
        let uid = match name {
            Some(n) => n,
            None => String::from_str("script"),
        };
        Ok(PrfItem {
            uid,
            kind: PrfKind::Script,
            enabled: true,
            doc: Value::empty_map(),
            script: String::new(),
            diagnostic: None,
        })
    }

    /// A deep copy with the same shape.
    pub fn duplicate(&self) -> (r: PrfItem)
        ensures
            r@ == self@,
    {
        PrfItem {
            uid: self.uid.clone(),
            kind: self.kind,
            enabled: self.enabled,
            doc: self.doc.deep_dup(),
            script: self.script.clone(),
            diagnostic: match &self.diagnostic {
                Some(d) => Some(d.clone()),
                None => None,
            },
        }
    }
}

/// The first item carrying `uid`.
pub open spec fn spec_item_lookup(items: Seq<SpecItem>, uid: Seq<char>) -> Option<SpecItem>
    decreases items,
{
    if items.len() == 0 {
        None
    } else if items[0].uid == uid {
        Some(items[0])
    } else {
        spec_item_lookup(items.skip(1), uid)
    }
}

/// Whether some item carries `uid`.
pub open spec fn spec_has_item(items: Seq<SpecItem>, uid: Seq<char>) -> bool {
    spec_item_lookup(items, uid) is Some
}

/// How many items carry `uid`.
pub open spec fn spec_count_uid(items: Seq<SpecItem>, uid: Seq<char>) -> nat
    decreases items,
{
    if items.len() == 0 {
        0
    } else {
        spec_count_uid(items.skip(1), uid) + (if items[0].uid == uid {
            1nat
        } else {
            0nat
        })
    }
}

/// An item appended at the end changes lookups only for identifiers no
/// earlier item carries, and raises exactly its own identifier's count.
pub proof fn lemma_item_push(items: Seq<SpecItem>, it: SpecItem, uid: Seq<char>)
    ensures
        spec_item_lookup(items.push(it), uid) == (match spec_item_lookup(items, uid) {
            Some(found) => Some(found),
            None => if it.uid == uid {
                Some(it)
            } else {
                None
            },
        }),
        spec_count_uid(items.push(it), uid) == spec_count_uid(items, uid) + (if it.uid == uid {
            1nat
        } else {
            0nat
        }),
    decreases items,
{
    let t = items.push(it);
    if items.len() == 0 {
        assert(t[0] == it);
        assert(t.skip(1) =~= Seq::<SpecItem>::empty());
        assert(spec_count_uid(t.skip(1), uid) == 0);
        assert(spec_count_uid(items, uid) == 0);
        assert(spec_item_lookup(items, uid) is None);
        if it.uid == uid {
            assert(spec_item_lookup(t, uid) == Some(it));
        } else {
            assert(spec_item_lookup(t.skip(1), uid) is None);
            assert(spec_item_lookup(t, uid) is None);
        }
    } else {
        assert(t[0] == items[0]);
        assert(t.skip(1) =~= items.skip(1).push(it));
        lemma_item_push(items.skip(1), it, uid);
        if items[0].uid == uid {
            assert(spec_item_lookup(t, uid) == Some(items[0]));
            assert(spec_item_lookup(items, uid) == Some(items[0]));
        } else {
            assert(spec_item_lookup(t, uid) == spec_item_lookup(t.skip(1), uid));
            assert(spec_item_lookup(items, uid) == spec_item_lookup(items.skip(1), uid));
        }
        assert(spec_count_uid(t, uid) == spec_count_uid(t.skip(1), uid) + (if t[0].uid == uid {
            1nat
        } else {
            0nat
        }));
        assert(spec_count_uid(items, uid) == spec_count_uid(items.skip(1), uid) + (if items[0].uid
            == uid {
            1nat
        } else {
            0nat
        }));
    }
}

/// A present identifier is counted at least once, an absent one zero
/// times.
pub proof fn lemma_item_count_vs_lookup(items: Seq<SpecItem>, uid: Seq<char>)
    ensures
        spec_has_item(items, uid) <==> spec_count_uid(items, uid) > 0,
    decreases items,
{
    if items.len() > 0 {
        lemma_item_count_vs_lookup(items.skip(1), uid);
    }
}

/// The registry of profile items: the designated current base profile,
/// the ordered chain of transformation item identifiers, and the items
/// themselves. Item identifiers are meant to be unique; `append_item`
/// preserves that.
#[derive(Debug)]
pub struct IProfiles {
    pub current: Option<String>,
    pub chain: Vec<String>,
    pub items: Vec<PrfItem>,
}

/// The mathematical shape of an [`IProfiles`].
#[verifier::ext_equal]
pub struct SpecProfiles {
    pub current: Option<Seq<char>>,
    pub chain: Seq<Seq<char>>,
    pub items: Seq<SpecItem>,
}

impl View for IProfiles {
    type V = SpecProfiles;

    open spec fn view(&self) -> SpecProfiles {
        SpecProfiles {
            current: match self.current {
                Some(c) => Some(c@),
                None => None,
            },
            chain: self.chain@.map_values(|u: String| u@),
            items: self.items@.map_values(|it: PrfItem| it@),
        }
    }
}

/// The registry after the two built-in items are guaranteed: a `"Merge"`
/// merge item and a `"Script"` script item are appended, each only if no
/// item of that identifier exists yet.
pub open spec fn spec_ensure_builtin(items: Seq<SpecItem>) -> Seq<SpecItem> {
    let with_merge = if spec_has_item(items, "Merge"@) {
        items
    } else {
        items.push(
            SpecItem {
                uid: "Merge"@,
                kind: PrfKind::Merge,
                enabled: true,
                doc: SpecValue::Mapping(Seq::empty()),
                script: Seq::empty(),
                diagnostic: None,
            },
        )
    };
    if spec_has_item(with_merge, "Script"@) {
        with_merge
    } else {
        with_merge.push(
            SpecItem {
                uid: "Script"@,
                kind: PrfKind::Script,
                enabled: true,
                doc: SpecValue::Mapping(Seq::empty()),
                script: Seq::empty(),
                diagnostic: None,
            },
        )
    }
}

impl IProfiles {
    /// An empty registry: no current profile, no chain, no items.
    pub fn new() -> (r: IProfiles)
        ensures
            r@.current is None,
            r@.chain == Seq::<Seq<char>>::empty(),
            r@.items == Seq::<SpecItem>::empty(),
    {
        let r = IProfiles { current: None, chain: Vec::new(), items: Vec::new() };
        proof {
            assert(r@.chain =~= Seq::<Seq<char>>::empty());
            assert(r@.items =~= Seq::<SpecItem>::empty());
        }
        r
    }

    /// Borrow the first item carrying `uid`, or report that none does.
    #[verifier::loop_isolation(false)]
    pub fn get_item(&self, uid: &String) -> (r: Result<&PrfItem, ProfilesError>)
        ensures
            match r {
                Ok(item) => spec_item_lookup(self@.items, uid@) == Some(item@),
                Err(e) => e == ProfilesError::ItemNotFound && spec_item_lookup(self@.items, uid@)
                    is None,
            },
    {
        let ghost full = self@.items;
        proof {
            assert(full.skip(0) =~= full);
        }
        let mut i: usize = 0;
        while i < self.items.len()
            invariant
                i <= self.items.len(),
                spec_item_lookup(full, uid@) == spec_item_lookup(full.skip(i as int), uid@),
            decreases self.items.len() - i,
        {
            proof {
                assert(full.skip(i as int)[0] == full[i as int]);
                assert(full[i as int] == self.items@[i as int]@);
            }
            if self.items[i].uid == *uid {
                return Ok(&self.items[i]);
            }
            proof {
                assert(full.skip(i as int).skip(1) =~= full.skip(i + 1 as int));
            }
            i = i + 1;
        }
        proof {
            assert(full.skip(full.len() as int) =~= Seq::<SpecItem>::empty());
        }
        Err(ProfilesError::ItemNotFound)
    }

    /// Append a new item. The item is rejected, and the registry left
    /// unchanged, exactly when its identifier is already taken.
    pub fn append_item(&mut self, item: PrfItem) -> (r: Result<(), ProfilesError>)
        ensures
            match r {
                Ok(_) => !spec_has_item(old(self)@.items, item@.uid) && final(self)@ == (
                SpecProfiles { items: old(self)@.items.push(item@), ..old(self)@ }),
                Err(e) => e == ProfilesError::DuplicateUid && spec_has_item(
                    old(self)@.items,
                    item@.uid,
                ) && final(self)@ == old(self)@,
            },
    {
        match self.get_item(&item.uid) {
            Ok(_) => Err(ProfilesError::DuplicateUid),
            Err(_) => {
                self.items.push(item);
                proof {
                    assert(final(self)@.items =~= old(self)@.items.push(item@));
                    assert(final(self)@ =~= (SpecProfiles {
                        items: old(self)@.items.push(item@),
                        ..old(self)@
                    }));
                }
                Ok(())
            },
        }
    }

    /// Guarantee the two built-in chain items: a `"Merge"` merge item and
    /// a `"Script"` script item, each created only if absent, so running
    /// this again never duplicates them.
    pub fn ensure_builtin_items(&mut self)
        ensures
            final(self)@.current == old(self)@.current,
            final(self)@.chain == old(self)@.chain,
            final(self)@.items == spec_ensure_builtin(old(self)@.items),
    {
        let merge_uid = String::from_str("Merge");
        if self.get_item(&merge_uid).is_err() {
            let item = match PrfItem::from_merge(Some(merge_uid)) {
                Ok(item) => item,
                Err(_) => {
                    proof {
                        assert(false);
                    }
                    return ;
                },
            };
            let appended = self.append_item(item);
            proof {
                assert(appended is Ok);
            }
        }
        let script_uid = String::from_str("Script");
        if self.get_item(&script_uid).is_err() {
            let item = match PrfItem::from_script(Some(script_uid)) {
                Ok(item) => item,
                Err(_) => {
                    proof {
                        assert(false);
                    }
                    return ;
                },
            };
            let appended = self.append_item(item);
            proof {
                assert(appended is Ok);
            }
        }
        proof {
            assert(final(self)@.items =~= spec_ensure_builtin(old(self)@.items));
        }
    }

    /// A deep copy with the same shape.
    #[verifier::loop_isolation(false)]
    pub fn duplicate(&self) -> (r: IProfiles)
        ensures
            r@ == self@,
    {
        let current = match &self.current {
            Some(c) => Some(c.clone()),
            None => None,
        };
        let mut chain: Vec<String> = Vec::new();
        let mut i: usize = 0;
        while i < self.chain.len()
            invariant
                i <= self.chain.len(),
                chain@.len() == i,
                forall|j: int| 0 <= j < i ==> #[trigger] chain@[j] == self.chain@[j],
            decreases self.chain.len() - i,
        {
            chain.push(self.chain[i].clone());
            i = i + 1;
        }
        let mut items: Vec<PrfItem> = Vec::new();
        let mut k: usize = 0;
        while k < self.items.len()
            invariant
                k <= self.items.len(),
                items@.len() == k,
                forall|j: int| 0 <= j < k ==> #[trigger] items@[j]@ == self.items@[j]@,
            decreases self.items.len() - k,
        {
            items.push(self.items[k].duplicate());
            k = k + 1;
        }
        let r = IProfiles { current, chain, items };
        proof {
            assert(chain@.map_values(|u: String| u@) =~= self.chain@.map_values(
                |u: String| u@,
            ));
            assert(items@.map_values(|it: PrfItem| it@) =~= self.items@.map_values(
                |it: PrfItem| it@,
            ));
            assert(r@ =~= self@);
        }
        r
    }
}

/// Guaranteeing the built-in items is idempotent, and starting from a
/// registry without them leaves exactly one of each.
pub proof fn lemma_ensure_builtin_once(items: Seq<SpecItem>)
    ensures
        spec_ensure_builtin(spec_ensure_builtin(items)) == spec_ensure_builtin(items),
        spec_count_uid(items, "Merge"@) == 0 ==> spec_count_uid(
            spec_ensure_builtin(items),
            "Merge"@,
        ) == 1,
        spec_count_uid(items, "Script"@) == 0 ==> spec_count_uid(
            spec_ensure_builtin(items),
            "Script"@,
        ) == 1,
{
    reveal_strlit("Merge");
    reveal_strlit("Script");
    assert("Merge"@.len() == 5);
    assert("Script"@.len() == 6);
    assert("Merge"@ != "Script"@);
    let m = SpecItem {
        uid: "Merge"@,
        kind: PrfKind::Merge,
        enabled: true,
        doc: SpecValue::Mapping(Seq::empty()),
        script: Seq::empty(),
        diagnostic: None,
    };
    let s = SpecItem {
        uid: "Script"@,
        kind: PrfKind::Script,
        enabled: true,
        doc: SpecValue::Mapping(Seq::empty()),
        script: Seq::empty(),
        diagnostic: None,
    };
    lemma_item_count_vs_lookup(items, "Merge"@);
    lemma_item_count_vs_lookup(items, "Script"@);
    lemma_item_push(items, m, "Merge"@);
    lemma_item_push(items, m, "Script"@);
    let wm = if spec_has_item(items, "Merge"@) {
        items
    } else {
        items.push(m)
    };
    lemma_item_count_vs_lookup(wm, "Merge"@);
    lemma_item_count_vs_lookup(wm, "Script"@);
    lemma_item_push(wm, s, "Merge"@);
    lemma_item_push(wm, s, "Script"@);
    let ws = spec_ensure_builtin(items);
    lemma_item_count_vs_lookup(ws, "Merge"@);
    lemma_item_count_vs_lookup(ws, "Script"@);
    lemma_item_push(ws, m, "Merge"@);
    lemma_item_push(ws, s, "Script"@);
}

} // verus!
