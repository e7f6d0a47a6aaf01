//! Creating a core, as a state machine: the caller performs each action
//! against libmgba and reports the outcome, and the machine decides what
//! comes next, including which resources must be released on failure.

use vstd::prelude::*;

use crate::error::CoreError;
use crate::lifecycle::{check_c_string, c_string_compatible};

verus! {

/// Where the creation of a core stands.
#[derive(Debug, Clone, Copy, PartialEq, Eq, Structural)]
pub enum Startup {
    /// The core is to be allocated.
    Allocating,
    /// The core is allocated; its `init` entry is to be looked up and run.
    Initializing,
    /// `init` succeeded; the configuration is to be set up and the frame
    /// buffer attached.
    AttachingVideo,
    /// The core is ready for use.
    Ready,
    /// Creation ended with this error.
    Failed(CoreError),
}

/// The outcome of a startup action, as the caller reports it.
#[derive(Debug, Clone, Copy, PartialEq, Eq, Structural)]
pub enum StartupEvent {
    /// The allocation returned a core (`true`) or null (`false`).
    Allocated(bool),
    /// The core's `init` entry is null.
    InitMissing,
    /// `init` ran and returned this value.
    InitReturned(bool),
    /// The configuration was set up; the `setVideoBuffer` entry was present
    /// and called (`true`), or is null (`false`).
    VideoAttached(bool),
}

/// What the caller must do next.
#[derive(Debug, Clone, Copy, PartialEq, Eq, Structural)]
pub enum StartupAction {
    /// Allocate the core.
    Allocate,
    /// Look up the `init` entry and, if present, run it.
    Initialize,
    /// Set up the configuration under the port name, allocate the frame
    /// buffer, and attach it through `setVideoBuffer` if present.
    ConfigureAndAttachVideo,
    /// Hand out the ready core.
    Finish,
    /// Return the error; nothing is held.
    Fail(CoreError),
    /// Free the allocation, which was never initialized, and return the error.
    FreeAndFail(CoreError),
    /// Tear down the initialized core (configuration, then `deinit`) and
    /// return the error.
    TeardownAndFail(CoreError),
}

/// The event that answers the action asked for in `phase`.
pub open spec fn startup_accepts(phase: Startup, event: StartupEvent) -> bool {
    match phase {
        Startup::Allocating => event is Allocated,
        Startup::Initializing => event is InitMissing || event is InitReturned,
        Startup::AttachingVideo => event is VideoAttached,
        Startup::Ready => false,
        Startup::Failed(_) => false,
    }
}

/// The transition table of core creation. Only pairs that satisfy
/// `startup_accepts` occur; any other pair leaves the phase unchanged.
pub open spec fn startup_transition(phase: Startup, event: StartupEvent) -> (Startup, StartupAction) {
    match (phase, event) {
        (Startup::Allocating, StartupEvent::Allocated(true)) => (
            Startup::Initializing,
            StartupAction::Initialize,
        ),
        (Startup::Allocating, StartupEvent::Allocated(false)) => (
            Startup::Failed(CoreError::CreateFailed),
            StartupAction::Fail(CoreError::CreateFailed),
        ),
        (Startup::Initializing, StartupEvent::InitMissing) => (
            Startup::Failed(CoreError::MissingFunction),
            StartupAction::FreeAndFail(CoreError::MissingFunction),
        ),
        (Startup::Initializing, StartupEvent::InitReturned(true)) => (
            Startup::AttachingVideo,
            StartupAction::ConfigureAndAttachVideo,
        ),
        (Startup::Initializing, StartupEvent::InitReturned(false)) => (
            Startup::Failed(CoreError::InitFailed),
            StartupAction::FreeAndFail(CoreError::InitFailed),
        ),
        (Startup::AttachingVideo, StartupEvent::VideoAttached(true)) => (
            Startup::Ready,
            StartupAction::Finish,
        ),
        (Startup::AttachingVideo, StartupEvent::VideoAttached(false)) => (
            Startup::Failed(CoreError::MissingFunction),
            StartupAction::TeardownAndFail(CoreError::MissingFunction),
        ),
        _ => (phase, StartupAction::Fail(CoreError::CreateFailed)),
    }
}

/// A phase in which the core has been allocated and not released.
pub open spec fn holds_core(phase: Startup) -> bool {
    phase is Initializing || phase is AttachingVideo || phase is Ready
}

/// An action that releases the allocated core.
pub open spec fn releases_core(action: StartupAction) -> bool {
    action is FreeAndFail || action is TeardownAndFail
}

/// The first step of creating a core with the given port name: the port is
/// checked before anything is allocated.
pub fn startup_begin(port: &[u8]) -> (r: (Startup, StartupAction))
    ensures
        c_string_compatible(port@) ==> r == (Startup::Allocating, StartupAction::Allocate),
        (forall|i: int| 0 <= i < port@.len() ==> port@[i] != 0u8) ==> r == (
            Startup::Allocating,
            StartupAction::Allocate,
        ),
        (exists|i: int| 0 <= i < port@.len() && port@[i] == 0u8) ==> r == (
            Startup::Failed(CoreError::InvalidPath),
            StartupAction::Fail(CoreError::InvalidPath),
        ),
        !c_string_compatible(port@) ==> r == (
            Startup::Failed(CoreError::InvalidPath),
            StartupAction::Fail(CoreError::InvalidPath),
        ),
{
    match check_c_string(port) {
        Ok(()) => (Startup::Allocating, StartupAction::Allocate),
        Err(e) => (Startup::Failed(e), StartupAction::Fail(e)),
    }
}

/// Advance core creation by the outcome of the last action.
pub fn startup_step(phase: Startup, event: StartupEvent) -> (r: (Startup, StartupAction))
    requires
        startup_accepts(phase, event),
    ensures
        r == startup_transition(phase, event),
        // A core that was allocated is released on every failure, and only then.
        holds_core(phase) && r.0 is Failed ==> releases_core(r.1),
        releases_core(r.1) ==> holds_core(phase),
        // A null entry of the core's function table fails with `MissingFunction`.
        event is InitMissing || event == StartupEvent::VideoAttached(false)
            ==> r.0 == Startup::Failed(CoreError::MissingFunction),
        // The action names the same error as the phase it leads to.
        forall|e: CoreError| r.0 == Startup::Failed(e) ==> (
            r.1 == StartupAction::Fail(e)
            || r.1 == StartupAction::FreeAndFail(e)
            || r.1 == StartupAction::TeardownAndFail(e)
        ),
{
    match (phase, event) {
        (Startup::Allocating, StartupEvent::Allocated(true)) => (
            Startup::Initializing,
            StartupAction::Initialize,
        ),
        (Startup::Allocating, StartupEvent::Allocated(false)) => (
            Startup::Failed(CoreError::CreateFailed),
            StartupAction::Fail(CoreError::CreateFailed),
        ),
        (Startup::Initializing, StartupEvent::InitMissing) => (
            Startup::Failed(CoreError::MissingFunction),
            StartupAction::FreeAndFail(CoreError::MissingFunction),
        ),
        (Startup::Initializing, StartupEvent::InitReturned(true)) => (
            Startup::AttachingVideo,
            StartupAction::ConfigureAndAttachVideo,
        ),
        (Startup::Initializing, StartupEvent::InitReturned(false)) => (
            Startup::Failed(CoreError::InitFailed),
            StartupAction::FreeAndFail(CoreError::InitFailed),
        ),
        (Startup::AttachingVideo, StartupEvent::VideoAttached(true)) => (
            Startup::Ready,
            StartupAction::Finish,
        ),
        (Startup::AttachingVideo, StartupEvent::VideoAttached(false)) => (
            Startup::Failed(CoreError::MissingFunction),
            StartupAction::TeardownAndFail(CoreError::MissingFunction),
        ),
        _ => (phase, StartupAction::Fail(CoreError::CreateFailed)),
    }
}

/// The phase reached from `phase` by the reports in `events`, stopping at
/// the first report that does not answer the pending action.
pub open spec fn startup_run(phase: Startup, events: Seq<StartupEvent>) -> Startup
    decreases events.len(),
{
    if events.len() == 0 || !startup_accepts(phase, events[0]) {
        phase
    } else {
        startup_run(startup_transition(phase, events[0]).0, events.drop_first())
    }
}

/// Creation ends in a ready core exactly when the allocation, `init` and
/// the attachment of the frame buffer all succeed, in that order; whatever
/// the reports, it ends (ready or failed) after at most three of them.
pub proof fn lemma_startup_ready_iff_all_succeed(events: Seq<StartupEvent>)
    ensures
        startup_run(Startup::Allocating, events) == Startup::Ready <==> (
            events.len() >= 3
            && events[0] == StartupEvent::Allocated(true)
            && events[1] == StartupEvent::InitReturned(true)
            && events[2] == StartupEvent::VideoAttached(true)
        ),
        events.len() >= 3 && startup_accepts(Startup::Allocating, events[0])
            && startup_accepts(startup_transition(Startup::Allocating, events[0]).0, events[1])
            && startup_accepts(
                startup_transition(startup_transition(Startup::Allocating, events[0]).0, events[1]).0,
                events[2],
            )
            ==> {
                let end = startup_run(Startup::Allocating, events);
                end is Ready || end is Failed
            },
{
    reveal_with_fuel(startup_run, 4);
    if events.len() >= 1 {
        let e1 = events.drop_first();
        if e1.len() >= 1 {
            let e2 = e1.drop_first();
            assert(e1[0] == events[1]);
            if e2.len() >= 1 {
                assert(e2[0] == events[2]);
                let e3 = e2.drop_first();
                lemma_terminal_stays(e3);
            }
            lemma_terminal_stays(e2);
        }
        lemma_terminal_stays(e1);
    }
}

/// A ready or failed creation accepts no further report.
proof fn lemma_terminal_stays(events: Seq<StartupEvent>)
    ensures
        startup_run(Startup::Ready, events) == Startup::Ready,
        forall|e: CoreError| #[trigger] startup_run(Startup::Failed(e), events) == Startup::Failed(e),
{
    reveal_with_fuel(startup_run, 1);
}

} // verus!
