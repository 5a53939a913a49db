//! The configuration registry: four independent snapshot cells, one per
//! configuration domain, and the generation entry points over them.

use crate::doc::SpecValue;
use crate::draft::Draft;
use crate::enhance::{
    enhance, spec_can_resolve, spec_done, spec_enhance, spec_exists_keys, spec_init, spec_wf,
    EnhanceError, Enhancer, SpecEnhancer,
};
use crate::profiles::{spec_ensure_builtin, IProfiles, SpecProfiles};
use crate::render::{render_doc, spec_render_doc};
use crate::runtime::{IRuntime, SpecRuntime};
use crate::settings::{spec_default_clash_doc, IClashTemp, IVerge};
use vstd::prelude::*;
use vstd::string::StringExecFns;

verus! {

/// File name of the runtime document the transport engine loads.
pub const RUNTIME_CONFIG: &'static str = "koala-clash.yaml";

/// File name of the throwaway copy written only for validation.
pub const CHECK_CONFIG: &'static str = "koala-clash-check.yaml";

/// Which on-disk document a generation writes: the one that will run,
/// or the disposable copy checked by the external engine.
#[derive(Clone, Copy, Debug, PartialEq, Eq, Structural)]
pub enum ConfigType {
    Run,
    Check,
}

/// Why a generation step failed.
#[derive(Clone, Copy, Debug, PartialEq, Eq, Structural)]
pub enum GenerateError {
    /// The registry designates no current base profile.
    NoCurrentProfile,
    /// The designated base profile is not among the items.
    ProfileNotFound,
    /// The chain holds an enabled script item; drive the stepper
    /// instead.
    ScriptPending,
    /// No runtime document has been generated yet.
    NoRuntimeConfig,
}

/// Whether a one-call generation can run to completion on this registry.
pub open spec fn spec_gen_ok(p: SpecProfiles) -> bool {
    spec_can_resolve(p) && spec_done(spec_enhance(p))
}

/// The runtime artifact a completed engine run commits.
pub open spec fn spec_runtime_of(e: SpecEnhancer) -> SpecRuntime {
    SpecRuntime { config: Some(e.doc), exists_keys: spec_exists_keys(e), chain_logs: e.logs }
}

/// The runtime artifact a one-call generation commits.
pub open spec fn spec_generated_runtime(p: SpecProfiles) -> SpecRuntime {
    spec_runtime_of(spec_enhance(p))
}

/// The on-disk text is a function of the registry's shape alone:
/// regenerating from an unchanged base profile and chain yields a
/// byte-identical runtime document.
pub proof fn lemma_generated_text_deterministic(p1: SpecProfiles, p2: SpecProfiles)
    requires
        p1 == p2,
    ensures
        spec_generated_runtime(p1) == spec_generated_runtime(p2),
        spec_render_doc(spec_enhance(p1).doc) == spec_render_doc(spec_enhance(p2).doc),
{
}

/// Relies on `String::from_iter` over `char`s: the string holds exactly
/// the characters of the vector, in order.
#[verifier::external_body]
fn chars_to_string(cs: Vec<char>) -> (r: String)
    ensures
        r@ == cs@,
{
    cs.into_iter().collect()
}

/// The registry: one snapshot cell per configuration domain. The cells
/// are independent; committing one never touches another. Built once at
/// process start and passed to whoever needs configuration state.
pub struct Config {
    clash_config: Draft<Box<IClashTemp>>,
    verge_config: Draft<Box<IVerge>>,
    profiles_config: Draft<Box<IProfiles>>,
    runtime_config: Draft<Box<IRuntime>>,
}

impl Config {
    /// The committed transport-engine options document.
    pub closed spec fn spec_clash(&self) -> SpecValue {
        self.clash_config.spec_committed()@
    }

    /// The committed application preferences.
    pub closed spec fn spec_verge(&self) -> IVerge {
        *self.clash_verge_value()
    }

    #[verifier::inline]
    closed spec fn clash_verge_value(&self) -> Box<IVerge> {
        self.verge_config.spec_committed()
    }

    /// The committed profile registry.
    pub closed spec fn spec_profiles(&self) -> SpecProfiles {
        self.profiles_config.spec_committed()@
    }

    /// The committed runtime artifact.
    pub closed spec fn spec_runtime(&self) -> SpecRuntime {
        self.runtime_config.spec_committed()@
    }

    /// No cell has an edit in progress.
    pub closed spec fn spec_no_open_drafts(&self) -> bool {
        &&& self.clash_config.spec_draft() is None
        &&& self.verge_config.spec_draft() is None
        &&& self.profiles_config.spec_draft() is None
        &&& self.runtime_config.spec_draft() is None
    }

    /// A fresh registry: default transport options, unset preferences,
    /// an empty profile registry, and no runtime artifact yet.
    pub fn new() -> (c: Config)
        ensures
            c.spec_clash() == spec_default_clash_doc(),
            c.spec_verge().enable_global_hotkey is None,
            c.spec_profiles().current is None,
            c.spec_profiles().chain == Seq::<Seq<char>>::empty(),
            c.spec_profiles().items == Seq::<crate::profiles::SpecItem>::empty(),
            c.spec_runtime().config is None,
            c.spec_no_open_drafts(),
    {
        Config {
            clash_config: Draft::from(Box::new(IClashTemp::new())),
            verge_config: Draft::from(Box::new(IVerge::new())),
            profiles_config: Draft::from(Box::new(IProfiles::new())),
            runtime_config: Draft::from(Box::new(IRuntime::new())),
        }
    }

    /// The transport-engine options cell.
    pub fn clash(&self) -> (r: &Draft<Box<IClashTemp>>)
        ensures
            r.spec_committed()@ == self.spec_clash(),
    {
        &self.clash_config
    }

    /// The application preferences cell.
    pub fn verge(&self) -> (r: &Draft<Box<IVerge>>)
        ensures
            *r.spec_committed() == self.spec_verge(),
    {
        &self.verge_config
    }

    /// The profile registry cell.
    pub fn profiles(&self) -> (r: &Draft<Box<IProfiles>>)
        ensures
            r.spec_committed()@ == self.spec_profiles(),
    {
        &self.profiles_config
    }

    /// The runtime artifact cell.
    pub fn runtime(&self) -> (r: &Draft<Box<IRuntime>>)
        ensures
            r.spec_committed()@ == self.spec_runtime(),
    {
        &self.runtime_config
    }

    /// Commit a new profile registry value through a draft.
    pub fn patch_profiles(&mut self, profiles: IProfiles)
        ensures
            final(self).spec_profiles() == profiles@,
            final(self).spec_clash() == old(self).spec_clash(),
            final(self).spec_verge() == old(self).spec_verge(),
            final(self).spec_runtime() == old(self).spec_runtime(),
            old(self).spec_no_open_drafts() ==> final(self).spec_no_open_drafts(),
    {
        self.profiles_config.set_draft(Box::new(profiles));
        self.profiles_config.commit();
    }

    /// Commit new application preferences through a draft.
    pub fn patch_verge(&mut self, verge: IVerge)
        ensures
            final(self).spec_verge() == verge,
            final(self).spec_clash() == old(self).spec_clash(),
            final(self).spec_profiles() == old(self).spec_profiles(),
            final(self).spec_runtime() == old(self).spec_runtime(),
            old(self).spec_no_open_drafts() ==> final(self).spec_no_open_drafts(),
    {
        self.verge_config.set_draft(Box::new(verge));
        self.verge_config.commit();
    }

    /// Run the whole chain and commit the runtime artifact, for
    /// registries whose chain holds no enabled script item. On any error
    /// the previously committed artifact stays authoritative.
    pub fn generate(&mut self) -> (r: Result<(), GenerateError>)
        ensures
            final(self).spec_clash() == old(self).spec_clash(),
            final(self).spec_verge() == old(self).spec_verge(),
            final(self).spec_profiles() == old(self).spec_profiles(),
            (r is Ok) == spec_gen_ok(old(self).spec_profiles()),
            match r {
                Ok(_) => final(self).spec_runtime() == spec_generated_runtime(
                    old(self).spec_profiles(),
                ),
                Err(e) => final(self).spec_runtime() == old(self).spec_runtime() && match e {
                    GenerateError::NoCurrentProfile => old(self).spec_profiles().current is None,
                    GenerateError::ProfileNotFound => old(self).spec_profiles().current matches Some(
                        cur,
                    ) && !crate::profiles::spec_has_item(old(self).spec_profiles().items, cur),
                    GenerateError::ScriptPending => spec_can_resolve(old(self).spec_profiles())
                        && !spec_done(spec_enhance(old(self).spec_profiles())),
                    GenerateError::NoRuntimeConfig => false,
                },
            },
            old(self).spec_no_open_drafts() ==> final(self).spec_no_open_drafts(),
    {
        let prof = self.profiles_config.data();
        match enhance(&**prof) {
            Ok((doc, exists_keys, chain_logs)) => {
                let art = IRuntime { config: Some(doc), exists_keys, chain_logs };
                proof {
                    assert(art@ =~= spec_generated_runtime(old(self).spec_profiles()));
                }
                self.runtime_config.set_draft(Box::new(art));
                self.runtime_config.commit();
                Ok(())
            },
            Err(e) => Err(
                match e {
                    EnhanceError::NoCurrentProfile => GenerateError::NoCurrentProfile,
                    EnhanceError::ProfileNotFound => GenerateError::ProfileNotFound,
                    EnhanceError::ScriptPending => GenerateError::ScriptPending,
                },
            ),
        }
    }

    /// Start a generation as a stepper, for chains that hold script
    /// items: the caller drives the [`Enhancer`] and hands it back to
    /// `finish_generation`.
    pub fn start_generation(&self) -> (r: Result<Enhancer, GenerateError>)
        ensures
            match r {
                Ok(e) => spec_can_resolve(self.spec_profiles()) && e@ == spec_init(
                    self.spec_profiles(),
                ) && spec_wf(e@),
                Err(err) => match err {
                    GenerateError::NoCurrentProfile => self.spec_profiles().current is None,
                    GenerateError::ProfileNotFound => self.spec_profiles().current matches Some(cur)
                        && !crate::profiles::spec_has_item(self.spec_profiles().items, cur),
                    _ => false,
                },
            },
    {
        let prof = self.profiles_config.data();
        match Enhancer::new(&**prof) {
            Ok(e) => Ok(e),
            Err(EnhanceError::NoCurrentProfile) => Err(GenerateError::NoCurrentProfile),
            Err(_) => Err(GenerateError::ProfileNotFound),
        }
    }

    /// Commit the artifact of a finished engine run, wholesale.
    pub fn finish_generation(&mut self, engine: Enhancer)
        requires
            spec_done(engine@),
        ensures
            final(self).spec_clash() == old(self).spec_clash(),
            final(self).spec_verge() == old(self).spec_verge(),
            final(self).spec_profiles() == old(self).spec_profiles(),
            final(self).spec_runtime() == spec_runtime_of(engine@),
            old(self).spec_no_open_drafts() ==> final(self).spec_no_open_drafts(),
    {
        let ghost ev = engine@;
        let (doc, exists_keys, chain_logs) = engine.finish();
        let art = IRuntime { config: Some(doc), exists_keys, chain_logs };
        proof {
            assert(art@ =~= spec_runtime_of(ev));
        }
        self.runtime_config.set_draft(Box::new(art));
        self.runtime_config.commit();
    }

    /// Guarantee the built-in `"Merge"` and `"Script"` chain items, then
    /// generate the runtime artifact. The bootstrap happens in every
    /// case; the result tells whether generation succeeded, and the
    /// caller goes on either way.
    pub fn init_config(&mut self) -> (r: Result<(), GenerateError>)
        ensures
            final(self).spec_clash() == old(self).spec_clash(),
            final(self).spec_verge() == old(self).spec_verge(),
            final(self).spec_profiles() == (SpecProfiles {
                items: spec_ensure_builtin(old(self).spec_profiles().items),
                ..old(self).spec_profiles()
            }),
            (r is Ok) == spec_gen_ok(final(self).spec_profiles()),
            r is Ok ==> final(self).spec_runtime() == spec_generated_runtime(
                final(self).spec_profiles(),
            ),
            !(r is Ok) ==> final(self).spec_runtime() == old(self).spec_runtime(),
            old(self).spec_no_open_drafts() ==> final(self).spec_no_open_drafts(),
    {
        let mut p = self.profiles_config.data().duplicate();
        p.ensure_builtin_items();
        self.profiles_config.set_draft(Box::new(p));
        self.profiles_config.commit();
        self.generate()
    }

    /// The canonical on-disk form of the committed runtime artifact: the
    /// file name for `typ` and the full text, a generator comment line
    /// followed by the document body. Fails exactly when no runtime
    /// document has been generated yet.
    pub fn generate_file(&self, typ: ConfigType) -> (r: Result<(String, String), GenerateError>)
        ensures
            match r {
                Ok(out) => self.spec_runtime().config matches Some(doc) && out.0@ == (match typ {
                    ConfigType::Run => RUNTIME_CONFIG@,
                    ConfigType::Check => CHECK_CONFIG@,
                }) && out.1@ == "# Generated by Koala Clash\n"@ + spec_render_doc(doc),
                Err(e) => e == GenerateError::NoRuntimeConfig && self.spec_runtime().config
                    is None,
            },
    {
        let name = match typ {
            ConfigType::Run => String::from_str(RUNTIME_CONFIG),
            ConfigType::Check => String::from_str(CHECK_CONFIG),
        };
        let art = self.runtime_config.data();
        match &art.config {
            Some(doc) => {
                let body = render_doc(doc);
                let text = String::from_str("# Generated by Koala Clash\n").concat(
                    chars_to_string(body).as_str(),
                );
                Ok((name, text))
            },
            None => Err(GenerateError::NoRuntimeConfig),
        }
    }
}

} // verus!
