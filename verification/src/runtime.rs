//! The runtime artifact: the merged document, its key provenance, and
//! the per-chain-step log. Produced fresh on every generation cycle and
//! replaced wholesale, never patched in place.

use crate::doc::{SpecValue, Value};
use vstd::prelude::*;

verus! {

/// Which step last set a top-level key: the base profile, or a chain
/// item named by its identifier.
#[derive(Debug, PartialEq)]
pub enum Origin {
    Base,
    Item(String),
}

/// The mathematical shape of an [`Origin`].
#[verifier::ext_equal]
pub enum SpecOrigin {
    Base,
    Item(Seq<char>),
}

impl View for Origin {
    type V = SpecOrigin;

    open spec fn view(&self) -> SpecOrigin {
        match self {
            Origin::Base => SpecOrigin::Base,
            Origin::Item(uid) => SpecOrigin::Item(uid@),
        }
    }
}

impl Origin {
    /// A copy with the same shape.
    pub fn duplicate(&self) -> (r: Origin)
        ensures
            r@ == self@,
    {
        match self {
            Origin::Base => Origin::Base,
            Origin::Item(uid) => Origin::Item(uid.clone()),
        }
    }
}

/// One top-level key of the merged document together with the chain step
/// that last set it.
#[derive(Debug, PartialEq)]
pub struct KeyOrigin {
    pub key: String,
    pub origin: Origin,
}

/// The mathematical shape of a [`KeyOrigin`].
#[verifier::ext_equal]
pub struct SpecKeyOrigin {
    pub key: Seq<char>,
    pub origin: SpecOrigin,
}

impl View for KeyOrigin {
    type V = SpecKeyOrigin;

    open spec fn view(&self) -> SpecKeyOrigin {
        SpecKeyOrigin { key: self.key@, origin: self.origin@ }
    }
}

/// The outcome of one applied chain step: the item, whether it
/// succeeded, its diagnostic message, and the top-level keys it set.
#[derive(Debug, PartialEq)]
pub struct ChainLog {
    pub uid: String,
    pub ok: bool,
    pub message: String,
    pub keys: Vec<String>,
}

/// The mathematical shape of a [`ChainLog`].
#[verifier::ext_equal]
pub struct SpecChainLog {
    pub uid: Seq<char>,
    pub ok: bool,
    pub message: Seq<char>,
    pub keys: Seq<Seq<char>>,
}

impl View for ChainLog {
    type V = SpecChainLog;

    open spec fn view(&self) -> SpecChainLog {
        SpecChainLog {
            uid: self.uid@,
            ok: self.ok,
            message: self.message@,
            keys: self.keys@.map_values(|k: String| k@),
        }
    }
}

/// The runtime artifact: the merged configuration document (absent until
/// the first successful generation), the provenance of its top-level
/// keys, and the ordered per-step log of the chain run that produced it.
#[derive(Debug)]
pub struct IRuntime {
    pub config: Option<Value>,
    pub exists_keys: Vec<KeyOrigin>,
    pub chain_logs: Vec<ChainLog>,
}

/// The mathematical shape of an [`IRuntime`].
#[verifier::ext_equal]
pub struct SpecRuntime {
    pub config: Option<SpecValue>,
    pub exists_keys: Seq<SpecKeyOrigin>,
    pub chain_logs: Seq<SpecChainLog>,
}

impl View for IRuntime {
    type V = SpecRuntime;

    open spec fn view(&self) -> SpecRuntime {
        SpecRuntime {
            config: match &self.config {
                Some(c) => Some(c@),
                None => None,
            },
            exists_keys: self.exists_keys@.map_values(|k: KeyOrigin| k@),
            chain_logs: self.chain_logs@.map_values(|l: ChainLog| l@),
        }
    }
}

impl IRuntime {
    /// An empty artifact: no document yet, no provenance, no logs.
    pub fn new() -> (r: IRuntime)
        ensures
            r@.config is None,
            r@.exists_keys == Seq::<SpecKeyOrigin>::empty(),
            r@.chain_logs == Seq::<SpecChainLog>::empty(),
    {
        let r = IRuntime { config: None, exists_keys: Vec::new(), chain_logs: Vec::new() };
        proof {
            assert(r@.exists_keys =~= Seq::<SpecKeyOrigin>::empty());
            assert(r@.chain_logs =~= Seq::<SpecChainLog>::empty());
        }
        r
    }
}

} // verus!
