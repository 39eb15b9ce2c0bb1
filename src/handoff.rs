//! The decisions of one build-script handoff: compile the script, share the
//! registry with it and call its entry point, then take the registry back.
//! The caller performs each action and reports what happened as an event.

use vstd::prelude::*;
use vstd::string::StringExecFns;

verus! {

/// The entry point that a build script defines.
pub const ENTRY_POINT: &'static str = "build_config";

/// The file extension of script modules.
pub const SCRIPT_EXTENSION: &'static str = "rhai";

/// The build script's file name inside the script folder.
pub const BUILD_SCRIPT_NAME: &'static str = "index.rhai";

/// Why a handoff failed. All three end the configuration phase.
#[derive(Clone, Copy, Debug, PartialEq, Eq, Structural)]
pub enum HandoffFailure {
    CompileError,
    ScriptRuntimeError,
    ReclaimInvariantViolation,
}

#[derive(Clone, Copy, Debug, PartialEq, Eq, Structural)]
pub enum HandoffState {
    Idle,
    Compiling,
    SharedForScript,
    Reclaiming,
    Done,
    Failed(HandoffFailure),
}

/// What the caller reports after performing an action.
#[derive(Clone, Copy, Debug, PartialEq, Eq, Structural)]
pub enum HandoffEvent {
    /// The caller starts a handoff.
    Start,
    Compiled,
    CompileFailed,
    /// The entry point returned without error.
    EntryPointReturned,
    EntryPointFailed,
    /// The shared registry had one remaining reference and was unwrapped.
    Reclaimed,
    /// Another reference to the shared registry survived the entry point.
    StrayReference,
}

/// What the caller must do next.
#[derive(Clone, Copy, Debug, PartialEq, Eq, Structural)]
pub enum HandoffAction {
    CompileScript,
    /// Wrap the registry for sharing and call the entry point with it.
    ShareAndCallEntryPoint,
    /// Unwrap the shared registry back to sole ownership.
    Reclaim,
    /// Hand the populated registry to the host.
    Deliver,
    /// Report the failure and end the process with a non-zero status.
    Abort(HandoffFailure),
    /// The event does not apply in this state; nothing to do.
    Ignore,
}

pub open spec fn spec_step(s: HandoffState, e: HandoffEvent) -> (HandoffState, HandoffAction) {
    match (s, e) {
        (HandoffState::Idle, HandoffEvent::Start) => (HandoffState::Compiling, HandoffAction::CompileScript),
        (HandoffState::Compiling, HandoffEvent::Compiled) => (
            HandoffState::SharedForScript,
            HandoffAction::ShareAndCallEntryPoint,
        ),
        (HandoffState::Compiling, HandoffEvent::CompileFailed) => (
            HandoffState::Failed(HandoffFailure::CompileError),
            HandoffAction::Abort(HandoffFailure::CompileError),
        ),
        (HandoffState::SharedForScript, HandoffEvent::EntryPointReturned) => (
            HandoffState::Reclaiming,
            HandoffAction::Reclaim,
        ),
        (HandoffState::SharedForScript, HandoffEvent::EntryPointFailed) => (
            HandoffState::Failed(HandoffFailure::ScriptRuntimeError),
            HandoffAction::Abort(HandoffFailure::ScriptRuntimeError),
        ),
        (HandoffState::Reclaiming, HandoffEvent::Reclaimed) => (HandoffState::Done, HandoffAction::Deliver),
        (HandoffState::Reclaiming, HandoffEvent::StrayReference) => (
            HandoffState::Failed(HandoffFailure::ReclaimInvariantViolation),
            HandoffAction::Abort(HandoffFailure::ReclaimInvariantViolation),
        ),
        _ => (s, HandoffAction::Ignore),
    }
}

/// The state after a run of events from `s`.
pub open spec fn run(s: HandoffState, events: Seq<HandoffEvent>) -> HandoffState
    decreases events.len(),
{
    if events.len() == 0 {
        s
    } else {
        run(spec_step(s, events[0]).0, events.subrange(1, events.len() as int))
    }
}

pub open spec fn is_terminal(s: HandoffState) -> bool {
    s is Done || s is Failed
}

/// The next state and the action to perform, for one event.
pub fn step(s: HandoffState, e: HandoffEvent) -> (r: (HandoffState, HandoffAction))
    ensures
        r == spec_step(s, e),
{
    match (s, e) {
        (HandoffState::Idle, HandoffEvent::Start) => (HandoffState::Compiling, HandoffAction::CompileScript),
        (HandoffState::Compiling, HandoffEvent::Compiled) => (
            HandoffState::SharedForScript,
            HandoffAction::ShareAndCallEntryPoint,
        ),
        (HandoffState::Compiling, HandoffEvent::CompileFailed) => (
            HandoffState::Failed(HandoffFailure::CompileError),
            HandoffAction::Abort(HandoffFailure::CompileError),
        ),
        (HandoffState::SharedForScript, HandoffEvent::EntryPointReturned) => (
            HandoffState::Reclaiming,
            HandoffAction::Reclaim,
        ),
        (HandoffState::SharedForScript, HandoffEvent::EntryPointFailed) => (
            HandoffState::Failed(HandoffFailure::ScriptRuntimeError),
            HandoffAction::Abort(HandoffFailure::ScriptRuntimeError),
        ),
        (HandoffState::Reclaiming, HandoffEvent::Reclaimed) => (HandoffState::Done, HandoffAction::Deliver),
        (HandoffState::Reclaiming, HandoffEvent::StrayReference) => (
            HandoffState::Failed(HandoffFailure::ReclaimInvariantViolation),
            HandoffAction::Abort(HandoffFailure::ReclaimInvariantViolation),
        ),
        _ => (s, HandoffAction::Ignore),
    }
}

/// The process exit status for a finished handoff: zero when done, non-zero
/// after any failure, none while it is still running.
pub fn exit_status(s: HandoffState) -> (r: Option<i32>)
    ensures
        s is Done ==> r == Some(0i32),
        s is Failed ==> r == Some(-1i32),
        !is_terminal(s) ==> r is None,
{
    match s {
        HandoffState::Done => Some(0),
        HandoffState::Failed(_) => Some(-1),
        _ => None,
    }
}

/// The build script inside `folder`.
pub fn build_script_path(folder: &String) -> (r: String)
    ensures
        r@ == folder@ + "/"@ + BUILD_SCRIPT_NAME@,
{
    let r = folder.clone().concat("/").concat(BUILD_SCRIPT_NAME);
    r
}

/// Done and Failed are final: no event leads out of them.
pub proof fn lemma_terminal_states_stay(s: HandoffState, events: Seq<HandoffEvent>)
    requires
        is_terminal(s),
    ensures
        run(s, events) == s,
    decreases events.len(),
{
    if events.len() > 0 {
        lemma_terminal_states_stay(s, events.subrange(1, events.len() as int));
    }
}

/// A build script that fails to compile ends the handoff as a compile failure,
/// whatever events follow: no registry is delivered.
pub proof fn lemma_compile_failure_is_fatal(events: Seq<HandoffEvent>)
    requires
        events.len() >= 2,
        events[0] == HandoffEvent::Start,
        events[1] == HandoffEvent::CompileFailed,
    ensures
        run(HandoffState::Idle, events) == HandoffState::Failed(HandoffFailure::CompileError),
{
    let rest = events.subrange(1, events.len() as int);
    assert(rest[0] == HandoffEvent::CompileFailed);
    let rest2 = rest.subrange(1, rest.len() as int);
    let failed = HandoffState::Failed(HandoffFailure::CompileError);
    lemma_terminal_states_stay(failed, rest2);
    assert(run(HandoffState::Compiling, rest) == run(failed, rest2));
    assert(run(HandoffState::Idle, events) == run(HandoffState::Compiling, rest));
}

/// The cycle without failures ends in Done.
pub proof fn lemma_full_cycle_is_done()
    ensures
        run(
            HandoffState::Idle,
            seq![
                HandoffEvent::Start,
                HandoffEvent::Compiled,
                HandoffEvent::EntryPointReturned,
                HandoffEvent::Reclaimed,
            ],
        ) == HandoffState::Done,
{
    let es = seq![
        HandoffEvent::Start,
        HandoffEvent::Compiled,
        HandoffEvent::EntryPointReturned,
        HandoffEvent::Reclaimed,
    ];
    let e1 = es.subrange(1, 4);
    let e2 = e1.subrange(1, 3);
    let e3 = e2.subrange(1, 2);
    let e4 = e3.subrange(1, 1);
    assert(e1[0] == HandoffEvent::Compiled);
    assert(e2[0] == HandoffEvent::EntryPointReturned);
    assert(e3[0] == HandoffEvent::Reclaimed);
    assert(e4.len() == 0);
    assert(run(HandoffState::Done, e4) == HandoffState::Done);
    assert(run(HandoffState::Reclaiming, e3) == run(HandoffState::Done, e4));
    assert(run(HandoffState::SharedForScript, e2) == run(HandoffState::Reclaiming, e3));
    assert(run(HandoffState::Compiling, e1) == run(HandoffState::SharedForScript, e2));
    assert(run(HandoffState::Idle, es) == run(HandoffState::Compiling, e1));
}

/// Deliver is asked for only on the step into Done, and from Reclaiming.
pub proof fn lemma_deliver_only_into_done(s: HandoffState, e: HandoffEvent)
    ensures
        spec_step(s, e).1 == HandoffAction::Deliver <==> (s == HandoffState::Reclaiming && e
            == HandoffEvent::Reclaimed),
        spec_step(s, e).1 == HandoffAction::Deliver ==> spec_step(s, e).0 == HandoffState::Done,
{
}

} // verus!
