//! The life of the keyboard hook: at most one at a time, and a callback
//! context that is there before the hook and gone only after it.
//!
//! Installing and removing the hook is the host's work. A start is therefore
//! two calls with the host's registration attempt between them:
//! [`CaptureSession::start_tracking`], which admits the start and has the
//! callback context set up, and [`CaptureSession::complete_start`], which
//! takes what the registration gave.

use vstd::prelude::*;
use vstd::string::*;

verus! {

/// The token by which the operating system knows an installed hook.
pub type HookHandle = u64;

/// Why a start did not lead to an active session.
#[derive(Debug, Clone, Copy, PartialEq, Eq, Structural)]
pub enum LifecycleError {
    /// A session is active, or is being started.
    AlreadyActive,
    /// The operating system refused to install the hook.
    RegistrationFailed,
}

/// The message that the host application shows for an error.
pub open spec fn error_text(error: LifecycleError) -> Seq<char> {
    match error {
        LifecycleError::AlreadyActive => "Already active"@,
        LifecycleError::RegistrationFailed => "Could not start listener"@,
    }
}

impl LifecycleError {
    /// The message that the host application shows for this error.
    pub fn message(&self) -> (text: String)
        ensures
            text@ == error_text(*self),
    {
        match self {
            LifecycleError::AlreadyActive => String::from_str("Already active"),
            LifecycleError::RegistrationFailed => String::from_str("Could not start listener"),
        }
    }
}

/// The state of capture.
#[derive(Debug, Clone, Copy, PartialEq, Eq, Structural)]
pub enum Phase {
    /// No hook and no callback context.
    Inactive,
    /// The callback context is set up and the registration of the hook is
    /// under way.
    Arming,
    /// The hook is installed under this handle.
    Active(HookHandle),
}

/// What a completed start asks of the host.
#[derive(Debug, Clone, Copy, PartialEq, Eq)]
pub struct Completion {
    /// What to tell the caller of the start.
    pub result: Result<(), LifecycleError>,
    /// A hook that was registered but that the session cannot take: the host
    /// removes it again.
    pub surplus: Option<HookHandle>,
    /// Whether the host tears the callback context down again.
    pub discard_context: bool,
}

/// The hook lifecycle manager.
#[derive(Debug)]
pub struct CaptureSession {
    phase: Phase,
}

/// Whether a callback context exists in a phase.
pub open spec fn context_installed(phase: Phase) -> bool {
    !(phase is Inactive)
}

/// The number of hooks installed in a phase.
pub open spec fn hooks_installed(phase: Phase) -> nat {
    if phase is Active {
        1
    } else {
        0
    }
}

/// A start request: admitted from the inactive phase alone, and refused
/// without any change otherwise.
pub open spec fn after_start(phase: Phase) -> (Phase, Result<(), LifecycleError>) {
    if phase is Inactive {
        (Phase::Arming, Ok(()))
    } else {
        (phase, Err(LifecycleError::AlreadyActive))
    }
}

/// The end of a start, with what the registration gave. While arming, a
/// handle makes the session active and a refusal makes it inactive again.
/// In any other phase nothing changes and a handle is handed back.
pub open spec fn after_registration(phase: Phase, registration: Option<HookHandle>) -> (
    Phase,
    Completion,
) {
    match (phase, registration) {
        (Phase::Arming, Some(handle)) => (
            Phase::Active(handle),
            Completion { result: Ok(()), surplus: None, discard_context: false },
        ),
        (Phase::Arming, None) => (
            Phase::Inactive,
            Completion {
                result: Err(LifecycleError::RegistrationFailed),
                surplus: None,
                discard_context: true,
            },
        ),
        (Phase::Active(_), _) => (
            phase,
            Completion {
                result: Err(LifecycleError::AlreadyActive),
                surplus: registration,
                discard_context: false,
            },
        ),
        (Phase::Inactive, _) => (
            phase,
            Completion {
                result: Err(LifecycleError::RegistrationFailed),
                surplus: registration,
                discard_context: false,
            },
        ),
    }
}

/// A stop: always ends inactive, and names the hook to remove if one was
/// installed.
pub open spec fn after_stop(phase: Phase) -> (Phase, Option<HookHandle>) {
    match phase {
        Phase::Active(handle) => (Phase::Inactive, Some(handle)),
        _ => (Phase::Inactive, None),
    }
}

impl View for CaptureSession {
    type V = Phase;

    closed spec fn view(&self) -> Phase {
        self.phase
    }
}

impl CaptureSession {
    /// A session with capture inactive.
    pub fn new() -> (session: CaptureSession)
        ensures
            session@ == Phase::Inactive,
    {
        CaptureSession { phase: Phase::Inactive }
    }

    /// The current phase.
    pub fn phase(&self) -> (phase: Phase)
        ensures
            phase == self@,
    {
        self.phase
    }

    /// Whether a hook is installed.
    pub fn is_active(&self) -> (active: bool)
        ensures
            active == (self@ is Active),
    {
        match self.phase {
            Phase::Active(_) => true,
            _ => false,
        }
    }

    /// The handle of the installed hook, if there is one.
    pub fn hook(&self) -> (handle: Option<HookHandle>)
        ensures
            handle == after_stop(self@).1,
    {
        match self.phase {
            Phase::Active(handle) => Some(handle),
            _ => None,
        }
    }

    /// Admits a start. On `Ok` the host sets the callback context up, tries
    /// to register the hook and calls [`CaptureSession::complete_start`]; on
    /// `Err` nothing has changed and nothing is to be done.
    pub fn start_tracking(&mut self) -> (result: Result<(), LifecycleError>)
        ensures
            (final(self)@, result) == after_start(old(self)@),
    {
        match self.phase {
            Phase::Inactive => {
                self.phase = Phase::Arming;
                Ok(())
            },
            _ => Err(LifecycleError::AlreadyActive),
        }
    }

    /// Ends a start with what the registration gave: the handle of the new
    /// hook, or `None` where the operating system refused.
    pub fn complete_start(&mut self, registration: Option<HookHandle>) -> (completion: Completion)
        ensures
            (final(self)@, completion) == after_registration(old(self)@, registration),
    {
        match (self.phase, registration) {
            (Phase::Arming, Some(handle)) => {
                self.phase = Phase::Active(handle);
                Completion { result: Ok(()), surplus: None, discard_context: false }
            },
            (Phase::Arming, None) => {
                self.phase = Phase::Inactive;
                Completion {
                    result: Err(LifecycleError::RegistrationFailed),
                    surplus: None,
                    discard_context: true,
                }
            },
            (Phase::Active(_), _) => Completion {
                result: Err(LifecycleError::AlreadyActive),
                surplus: registration,
                discard_context: false,
            },
            (Phase::Inactive, _) => Completion {
                result: Err(LifecycleError::RegistrationFailed),
                surplus: registration,
                discard_context: false,
            },
        }
    }

    /// Stops capture. The host removes the hook that is returned, if any,
    /// and only then tears the callback context down.
    pub fn stop_tracking(&mut self) -> (release: Option<HookHandle>)
        ensures
            (final(self)@, release) == after_stop(old(self)@),
    {
        let release = self.hook();
        self.phase = Phase::Inactive;
        release
    }
}

/// A stop leaves capture inactive from any phase, a second stop changes
/// nothing and removes nothing, and so does a stop of a session that was
/// never started.
pub proof fn law_stop_is_idempotent(phase: Phase)
    ensures
        after_stop(phase).0 == Phase::Inactive,
        after_stop(after_stop(phase).0) == (Phase::Inactive, None::<HookHandle>),
        after_stop(Phase::Inactive) == (Phase::Inactive, None::<HookHandle>),
{
}

/// A second start without a stop in between is refused as already active
/// and changes nothing: after a start that succeeded with `handle`, that one
/// hook stays installed; while the first start is still arming, it stays so.
pub proof fn law_second_start_is_refused(handle: HookHandle)
    ensures
        after_start(Phase::Inactive) == (Phase::Arming, Ok::<(), LifecycleError>(())),
        after_registration(Phase::Arming, Some(handle)).0 == Phase::Active(handle),
        after_registration(Phase::Arming, Some(handle)).1.result == Ok::<(), LifecycleError>(()),
        after_start(Phase::Active(handle)) == (
            Phase::Active(handle),
            Err::<(), LifecycleError>(LifecycleError::AlreadyActive),
        ),
        after_start(Phase::Arming) == (
            Phase::Arming,
            Err::<(), LifecycleError>(LifecycleError::AlreadyActive),
        ),
        hooks_installed(after_start(Phase::Active(handle)).0) == 1,
{
}

/// A registration that the operating system refuses leaves capture as it
/// was before the start: inactive, with no hook and no callback context.
pub proof fn law_refused_registration_leaves_inactive()
    ensures
        after_registration(after_start(Phase::Inactive).0, None).0 == Phase::Inactive,
        after_registration(after_start(Phase::Inactive).0, None).1.result == Err::<
            (),
            LifecycleError,
        >(LifecycleError::RegistrationFailed),
        after_registration(after_start(Phase::Inactive).0, None).1.discard_context,
{
}

/// In every phase a hook is installed only where a callback context exists,
/// there is never more than one hook, and no step hands the session a second
/// one: a handle that arrives while a hook is installed comes back as
/// surplus.
pub proof fn law_single_hook(phase: Phase, registration: Option<HookHandle>)
    ensures
        hooks_installed(phase) <= 1,
        hooks_installed(phase) == 1 ==> context_installed(phase),
        hooks_installed(after_start(phase).0) == hooks_installed(phase),
        hooks_installed(after_stop(phase).0) == 0,
        !context_installed(after_stop(phase).0),
        phase is Active ==> after_registration(phase, registration) == (
            phase,
            Completion {
                result: Err(LifecycleError::AlreadyActive),
                surplus: registration,
                discard_context: false,
            },
        ),
{
}

} // verus!
