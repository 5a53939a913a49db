//! The validation coordinator: the state machine that takes a generated
//! runtime document through external validation and decides fallback and
//! notification. The reason tags form a fixed vocabulary: success,
//! boot-time invalid config, validation process terminated, generation
//! error.

use vstd::prelude::*;

verus! {

/// How a generation-and-validation cycle ended.
#[derive(Debug, PartialEq)]
pub enum ValidationOutcome {
    /// The engine accepted the generated document.
    Success,
    /// The engine ran and rejected the document, with its diagnostic.
    BootInvalidConfig(String),
    /// The engine itself could not be run.
    ProcessTerminated,
    /// The runtime file could not even be produced.
    GenerationError,
}

/// The mathematical shape of a [`ValidationOutcome`].
#[verifier::ext_equal]
pub enum SpecOutcome {
    Success,
    BootInvalidConfig(Seq<char>),
    ProcessTerminated,
    GenerationError,
}

impl View for ValidationOutcome {
    type V = SpecOutcome;

    open spec fn view(&self) -> SpecOutcome {
        match self {
            ValidationOutcome::Success => SpecOutcome::Success,
            ValidationOutcome::BootInvalidConfig(m) => SpecOutcome::BootInvalidConfig(m@),
            ValidationOutcome::ProcessTerminated => SpecOutcome::ProcessTerminated,
            ValidationOutcome::GenerationError => SpecOutcome::GenerationError,
        }
    }
}

/// The reason tag carried by the fallback call and the notification.
pub open spec fn spec_reason_tag(o: SpecOutcome) -> Seq<char> {
    match o {
        SpecOutcome::Success => "config_validate::success"@,
        SpecOutcome::BootInvalidConfig(_) => "config_validate::boot_error"@,
        SpecOutcome::ProcessTerminated => "config_validate::process_terminated"@,
        SpecOutcome::GenerationError => "config_validate::error"@,
    }
}

/// The diagnostic message carried by the fallback call and the
/// notification: the engine's diagnostic for a rejected document, empty
/// for everything else.
pub open spec fn spec_message(o: SpecOutcome) -> Seq<char> {
    match o {
        SpecOutcome::BootInvalidConfig(m) => m,
        _ => Seq::empty(),
    }
}

/// How the external engine's reply is classified: acceptance is
/// success; a structured rejection keeps its diagnostic; a failure to
/// run the engine at all is a process termination.
pub open spec fn spec_classify_reply(reply: Result<(bool, Seq<char>), Seq<char>>) -> SpecOutcome {
    match reply {
        Ok((valid, msg)) => if valid {
            SpecOutcome::Success
        } else {
            SpecOutcome::BootInvalidConfig(msg)
        },
        Err(_) => SpecOutcome::ProcessTerminated,
    }
}

impl ValidationOutcome {
    /// Classify the external engine's validation reply.
    pub fn of_engine_reply(reply: Result<(bool, String), String>) -> (o: ValidationOutcome)
        ensures
            o@ == spec_classify_reply(
                match reply {
                    Ok((valid, msg)) => Ok((valid, msg@)),
                    Err(err) => Err(err@),
                },
            ),
    {
        match reply {
            Ok((valid, msg)) => {
                if valid {
                    ValidationOutcome::Success
                } else {
                    ValidationOutcome::BootInvalidConfig(msg)
                }
            },
            Err(_) => ValidationOutcome::ProcessTerminated,
        }
    }

    /// The outcome's reason tag.
    pub fn reason_tag(&self) -> (r: &'static str)
        ensures
            r@ == spec_reason_tag(self@),
    {
        match self {
            ValidationOutcome::Success => "config_validate::success",
            ValidationOutcome::BootInvalidConfig(_) => "config_validate::boot_error",
            ValidationOutcome::ProcessTerminated => "config_validate::process_terminated",
            ValidationOutcome::GenerationError => "config_validate::error",
        }
    }

    /// The outcome's diagnostic message.
    pub fn message(&self) -> (r: String)
        ensures
            r@ == spec_message(self@),
    {
        match self {
            ValidationOutcome::BootInvalidConfig(m) => m.clone(),
            _ => String::new(),
        }
    }

    /// Whether the default-config fallback must be applied: on every
    /// outcome but success.
    pub fn needs_fallback(&self) -> (r: bool)
        ensures
            r == !(self@ is Success),
    {
        match self {
            ValidationOutcome::Success => false,
            _ => true,
        }
    }
}

/// Where the coordinator stands.
#[derive(Debug)]
pub enum CoordState {
    /// Producing the runtime artifact and its file.
    Generating,
    /// The file exists; validation has not started.
    Generated,
    /// Waiting for the external engine's verdict on the check file.
    Validating,
    /// Terminal: the engine accepted the document.
    Valid,
    /// Terminal: the engine rejected the document, with its diagnostic.
    InvalidAtBoot(String),
    /// Terminal: the engine could not be run.
    ProcessFailed,
    /// Terminal: the file could not be produced.
    GenerationFailed,
    /// The one notification for this cycle went out.
    Notified,
}

/// The mathematical shape of a [`CoordState`].
#[verifier::ext_equal]
pub enum SpecCoordState {
    Generating,
    Generated,
    Validating,
    Valid,
    InvalidAtBoot(Seq<char>),
    ProcessFailed,
    GenerationFailed,
    Notified,
}

impl View for CoordState {
    type V = SpecCoordState;

    open spec fn view(&self) -> SpecCoordState {
        match self {
            CoordState::Generating => SpecCoordState::Generating,
            CoordState::Generated => SpecCoordState::Generated,
            CoordState::Validating => SpecCoordState::Validating,
            CoordState::Valid => SpecCoordState::Valid,
            CoordState::InvalidAtBoot(m) => SpecCoordState::InvalidAtBoot(m@),
            CoordState::ProcessFailed => SpecCoordState::ProcessFailed,
            CoordState::GenerationFailed => SpecCoordState::GenerationFailed,
            CoordState::Notified => SpecCoordState::Notified,
        }
    }
}

/// A state from which only the notification remains.
pub open spec fn spec_terminal(s: SpecCoordState) -> bool {
    match s {
        SpecCoordState::Valid => true,
        SpecCoordState::InvalidAtBoot(_) => true,
        SpecCoordState::ProcessFailed => true,
        SpecCoordState::GenerationFailed => true,
        _ => false,
    }
}

/// The state after the engine's reply arrives.
pub open spec fn spec_after_engine_reply(reply: Result<(bool, Seq<char>), Seq<char>>) -> SpecCoordState {
    match reply {
        Ok((valid, msg)) => if valid {
            SpecCoordState::Valid
        } else {
            SpecCoordState::InvalidAtBoot(msg)
        },
        Err(_) => SpecCoordState::ProcessFailed,
    }
}

/// The outcome a terminal state stands for.
pub open spec fn spec_state_outcome(s: SpecCoordState) -> SpecOutcome {
    match s {
        SpecCoordState::Valid => SpecOutcome::Success,
        SpecCoordState::InvalidAtBoot(m) => SpecOutcome::BootInvalidConfig(m),
        SpecCoordState::ProcessFailed => SpecOutcome::ProcessTerminated,
        _ => SpecOutcome::GenerationError,
    }
}

/// The fallback call a terminal state demands: none when the document
/// was accepted, otherwise the reason tag and diagnostic handed to the
/// engine's default-config substitution.
pub open spec fn spec_fallback(s: SpecCoordState) -> Option<(Seq<char>, Seq<char>)> {
    if s is Valid {
        None
    } else {
        Some((spec_reason_tag(spec_state_outcome(s)), spec_message(spec_state_outcome(s))))
    }
}

/// The one notification a terminal state emits: its reason tag and
/// diagnostic (the empty string permitted).
pub open spec fn spec_notice(s: SpecCoordState) -> (Seq<char>, Seq<char>) {
    (spec_reason_tag(spec_state_outcome(s)), spec_message(spec_state_outcome(s)))
}

/// The coordinator for one generate, validate, fall back and notify
/// cycle. The caller performs the outside work (writing files, calling
/// the engine, emitting the notification) and reports each result back;
/// the coordinator decides every transition.
#[derive(Debug)]
pub struct Coordinator {
    state: CoordState,
}

impl Coordinator {
    /// Where the coordinator stands.
    pub closed spec fn spec_state(&self) -> SpecCoordState {
        self.state@
    }

    /// A cycle starts generating.
    pub fn new() -> (c: Coordinator)
        ensures
            c.spec_state() == SpecCoordState::Generating,
    {
        Coordinator { state: CoordState::Generating }
    }

    /// Report whether the runtime file was produced.
    pub fn on_generated(&mut self, ok: bool)
        requires
            old(self).spec_state() == SpecCoordState::Generating,
        ensures
            final(self).spec_state() == (if ok {
                SpecCoordState::Generated
            } else {
                SpecCoordState::GenerationFailed
            }),
    {
        self.state = if ok {
            CoordState::Generated
        } else {
            CoordState::GenerationFailed
        };
    }

    /// The check file is written and the engine has been asked.
    pub fn start_validation(&mut self)
        requires
            old(self).spec_state() == SpecCoordState::Generated,
        ensures
            final(self).spec_state() == SpecCoordState::Validating,
    {
        self.state = CoordState::Validating;
    }

    /// Report the engine's verdict, or the failure to obtain one.
    pub fn on_engine_reply(&mut self, reply: Result<(bool, String), String>)
        requires
            old(self).spec_state() == SpecCoordState::Validating,
        ensures
            final(self).spec_state() == spec_after_engine_reply(
                match reply {
                    Ok((valid, msg)) => Ok((valid, msg@)),
                    Err(err) => Err(err@),
                },
            ),
            spec_terminal(final(self).spec_state()),
    {
        self.state = match reply {
            Ok((valid, msg)) => {
                if valid {
                    CoordState::Valid
                } else {
                    CoordState::InvalidAtBoot(msg)
                }
            },
            Err(_) => CoordState::ProcessFailed,
        };
    }

    /// How the cycle ended.
    pub fn outcome(&self) -> (o: ValidationOutcome)
        requires
            spec_terminal(self.spec_state()),
        ensures
            o@ == spec_state_outcome(self.spec_state()),
    {
        match &self.state {
            CoordState::Valid => ValidationOutcome::Success,
            CoordState::InvalidAtBoot(m) => ValidationOutcome::BootInvalidConfig(m.clone()),
            CoordState::ProcessFailed => ValidationOutcome::ProcessTerminated,
            _ => ValidationOutcome::GenerationError,
        }
    }

    /// The fallback call this cycle demands, if any: the reason tag and
    /// message for the engine's default-config substitution.
    pub fn fallback_action(&self) -> (r: Option<(&'static str, String)>)
        requires
            spec_terminal(self.spec_state()),
        ensures
            match r {
                Some(act) => spec_fallback(self.spec_state()) == Some((act.0@, act.1@)),
                None => spec_fallback(self.spec_state()) is None,
            },
    {
        let o = self.outcome();
        if o.needs_fallback() {
            let tag = o.reason_tag();
            let msg = o.message();
            Some((tag, msg))
        } else {
            None
        }
    }

    /// The one notification this cycle emits.
    pub fn notice(&self) -> (r: (&'static str, String))
        requires
            spec_terminal(self.spec_state()),
        ensures
            (r.0@, r.1@) == spec_notice(self.spec_state()),
    {
        let o = self.outcome();
        let tag = o.reason_tag();
        let msg = o.message();
        (tag, msg)
    }

    /// The notification went out; the cycle is over.
    pub fn mark_notified(&mut self)
        requires
            spec_terminal(old(self).spec_state()),
        ensures
            final(self).spec_state() == SpecCoordState::Notified,
    {
        self.state = CoordState::Notified;
    }
}

/// A structured rejection falls back with the boot-time reason tag, and
/// the notification carries the engine's diagnostic word for word.
pub proof fn lemma_rejection_falls_back_with_diagnostic(msg: Seq<char>)
    ensures
        ({
            let s = spec_after_engine_reply(Ok((false, msg)));
            &&& spec_terminal(s)
            &&& spec_fallback(s) == Some(("config_validate::boot_error"@, msg))
            &&& spec_notice(s) == ("config_validate::boot_error"@, msg)
        }),
{
}

/// A failed generation reaches the terminal generation-failure state;
/// its fallback and notification carry the generation-error reason tag
/// and an empty message.
pub proof fn lemma_generation_failure_falls_back()
    ensures
        spec_terminal(SpecCoordState::GenerationFailed),
        spec_fallback(SpecCoordState::GenerationFailed) == Some(
            ("config_validate::error"@, Seq::<char>::empty()),
        ),
        spec_notice(SpecCoordState::GenerationFailed) == (
            "config_validate::error"@,
            Seq::<char>::empty(),
        ),
{
}

} // verus!
