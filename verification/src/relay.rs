//! The session relay: the protocol that turns the local terminal into a
//! channel to a command running in a remote environment.
//!
//! A relay attaches to the environment, takes the terminal into raw mode,
//! launches the input pump, runs the output pump until the remote output
//! ends or the terminal fails, and gives the terminal back before it reports
//! its result. The relay itself performs none of this. It is told what
//! happened and answers with what has to be done next.

use crate::pump::{OutputAction, OutputEvent, OutputPump, WriteError};
use vstd::prelude::*;

verus! {

/// The command that a session runs in the remote environment.
pub const SESSION_COMMAND: &'static str = "bash";

/// Why no interactive session came about.
#[derive(Debug, PartialEq, Eq)]
pub enum AttachError {
    /// The control plane could not create the exec session, for this cause.
    ExecCreate(String),
    /// The control plane could not start the exec session, for this cause.
    ExecStart(String),
    /// The exec session started without attached streams.
    Detached,
}

/// Why a relay failed.
#[derive(Debug, PartialEq, Eq)]
pub enum RelayError {
    /// No interactive session came about.
    Attach(AttachError),
    /// Raw-mode control of the local terminal could not be had.
    TerminalUnavailable,
    /// The local terminal failed while output was written to it.
    Write(WriteError),
}

/// The exec session that a relay asks the control plane to create.
#[derive(Debug, PartialEq, Eq)]
pub struct ExecRequest {
    /// The name of the environment to run the command in.
    pub target: String,
    /// The command to run.
    pub command: &'static str,
    /// Whether the command's standard input is attached.
    pub attach_stdin: bool,
    /// Whether the command's standard output is attached.
    pub attach_stdout: bool,
    /// Whether the command's standard error is attached.
    pub attach_stderr: bool,
    /// Whether the command gets a terminal of its own.
    pub tty: bool,
}

/// What a relay is told: the outcome of the action it asked for last.
#[derive(Debug, PartialEq, Eq)]
pub enum RelayEvent {
    /// The caller wants the session to start.
    Begin,
    /// The control plane created the exec session with this identifier.
    ExecCreated(String),
    /// The control plane could not create the exec session, for this cause.
    ExecCreateFailed(String),
    /// The exec session started with attached input and output streams.
    ExecAttached,
    /// The exec session started, but without attached streams.
    ExecDetached,
    /// The control plane could not start the exec session, for this cause.
    ExecStartFailed(String),
    /// The local terminal is in raw mode and under the relay's control.
    TerminalAcquired,
    /// Raw-mode control of the local terminal was refused.
    TerminalUnavailable,
    /// The input pump runs.
    InputLaunched,
    /// Something happened to the output pump.
    Output(OutputEvent),
    /// The local terminal is back in cooked mode.
    TerminalReleased,
}

/// What a relay asks for.
#[derive(Debug, PartialEq, Eq)]
pub enum RelayAction {
    /// Ask the control plane to create this exec session.
    CreateExec(ExecRequest),
    /// Ask the control plane to start the exec session with this identifier.
    StartExec(String),
    /// Take the local terminal into raw mode.
    AcquireTerminal,
    /// Launch the input pump as a task of its own.
    LaunchInput,
    /// Wait for the next chunk of remote output.
    AwaitOutput,
    /// Write these bytes to the local terminal, all of them and unchanged.
    Write(Vec<u8>),
    /// Flush the local terminal.
    Flush,
    /// Put the local terminal back into cooked mode.
    ReleaseTerminal,
    /// Return this result to the caller.
    Finish(Result<(), RelayError>),
}

/// The step a relay is at.
#[derive(Debug, PartialEq, Eq)]
pub enum RelayPhase {
    /// The target is known; nothing was asked of the control plane.
    Created,
    /// The control plane was asked to create the exec session.
    CreatingExec,
    /// The control plane was asked to start the exec session.
    StartingExec,
    /// The session is attached; raw mode was asked for.
    AcquiringTerminal,
    /// The terminal is raw; the input pump is being launched.
    LaunchingInput,
    /// Both pumps run; the output pump is at the given step.
    Pumping(OutputPump),
    /// The output pump stopped with the given result; the terminal is being
    /// restored.
    Releasing(Result<(), RelayError>),
    /// The session ended and the terminal is restored.
    Closed,
    /// The relay failed; the terminal is in cooked mode.
    Failed(RelayError),
}

/// The five states of a relay as its caller sees them.
#[derive(Clone, Copy, Debug, PartialEq, Eq, Structural)]
pub enum Stage {
    /// Nothing was asked of the control plane.
    Created,
    /// The session is being attached.
    Attaching,
    /// The terminal is raw and traffic is relayed.
    Relaying,
    /// The session ended normally.
    Closed,
    /// The relay failed.
    Failed,
}

impl RelayPhase {
    /// The state that this step belongs to.
    pub open spec fn stage(self) -> Stage {
        match self {
            RelayPhase::Created => Stage::Created,
            RelayPhase::CreatingExec => Stage::Attaching,
            RelayPhase::StartingExec => Stage::Attaching,
            RelayPhase::AcquiringTerminal => Stage::Attaching,
            RelayPhase::LaunchingInput => Stage::Relaying,
            RelayPhase::Pumping(_) => Stage::Relaying,
            RelayPhase::Releasing(_) => Stage::Relaying,
            RelayPhase::Closed => Stage::Closed,
            RelayPhase::Failed(_) => Stage::Failed,
        }
    }

    /// Whether the local terminal is in raw mode at this step.
    pub open spec fn holds_terminal(self) -> bool {
        self is LaunchingInput || self is Pumping
    }

    /// Whether the relay has returned its result.
    pub open spec fn finished(self) -> bool {
        self is Closed || self is Failed
    }
}

/// What a relay is, for the contracts: its target and the step it is at.
pub ghost struct RelayModel {
    /// The name of the environment the session runs in.
    pub target: String,
    /// The step the relay is at.
    pub phase: RelayPhase,
}

/// The exec session that a relay for `target` asks for: the session command
/// in the target environment, with input, output and error streams attached
/// and a terminal allocated.
pub open spec fn exec_request(target: String) -> ExecRequest {
    ExecRequest {
        target,
        command: SESSION_COMMAND,
        attach_stdin: true,
        attach_stdout: true,
        attach_stderr: true,
        tty: true,
    }
}

/// The step and the action with which a relay gives up for `error`.
pub open spec fn failure(error: RelayError) -> (RelayPhase, RelayAction) {
    (RelayPhase::Failed(error), RelayAction::Finish(Err(error)))
}

/// The step and the action with which a relay passes on what its output pump
/// asked for. When the pump stops, the relay asks for the terminal to be
/// restored and keeps the pump's result until that is done.
pub open spec fn relayed(pump: OutputPump, action: OutputAction) -> (RelayPhase, RelayAction) {
    match action {
        OutputAction::Await => (RelayPhase::Pumping(pump), RelayAction::AwaitOutput),
        OutputAction::Write(bytes) => (RelayPhase::Pumping(pump), RelayAction::Write(bytes)),
        OutputAction::Flush => (RelayPhase::Pumping(pump), RelayAction::Flush),
        OutputAction::Complete(Ok(_)) => (
            RelayPhase::Releasing(Ok(())),
            RelayAction::ReleaseTerminal,
        ),
        OutputAction::Complete(Err(error)) => (
            RelayPhase::Releasing(Err(RelayError::Write(error))),
            RelayAction::ReleaseTerminal,
        ),
    }
}

impl RelayModel {
    /// The relay for `target` before anything has happened.
    pub open spec fn created(target: String) -> RelayModel {
        RelayModel { target, phase: RelayPhase::Created }
    }

    /// The transition table: the step that follows and the action asked for,
    /// or `None` where `event` cannot follow the action that is outstanding.
    pub open spec fn transition(self, event: RelayEvent) -> Option<(RelayPhase, RelayAction)> {
        match (self.phase, event) {
            (RelayPhase::Created, RelayEvent::Begin) => Some(
                (RelayPhase::CreatingExec, RelayAction::CreateExec(exec_request(self.target))),
            ),
            (RelayPhase::CreatingExec, RelayEvent::ExecCreated(id)) => Some(
                (RelayPhase::StartingExec, RelayAction::StartExec(id)),
            ),
            (RelayPhase::CreatingExec, RelayEvent::ExecCreateFailed(cause)) => Some(
                failure(RelayError::Attach(AttachError::ExecCreate(cause))),
            ),
            (RelayPhase::StartingExec, RelayEvent::ExecAttached) => Some(
                (RelayPhase::AcquiringTerminal, RelayAction::AcquireTerminal),
            ),
            (RelayPhase::StartingExec, RelayEvent::ExecDetached) => Some(
                failure(RelayError::Attach(AttachError::Detached)),
            ),
            (RelayPhase::StartingExec, RelayEvent::ExecStartFailed(cause)) => Some(
                failure(RelayError::Attach(AttachError::ExecStart(cause))),
            ),
            (RelayPhase::AcquiringTerminal, RelayEvent::TerminalAcquired) => Some(
                (RelayPhase::LaunchingInput, RelayAction::LaunchInput),
            ),
            (RelayPhase::AcquiringTerminal, RelayEvent::TerminalUnavailable) => Some(
                failure(RelayError::TerminalUnavailable),
            ),
            (RelayPhase::LaunchingInput, RelayEvent::InputLaunched) => Some(
                (RelayPhase::Pumping(OutputPump::AwaitingChunk), RelayAction::AwaitOutput),
            ),
            (RelayPhase::Pumping(pump), RelayEvent::Output(output)) => match pump.next(output) {
                Some((after, action)) => Some(relayed(after, action)),
                None => None,
            },
            (RelayPhase::Releasing(Ok(_)), RelayEvent::TerminalReleased) => Some(
                (RelayPhase::Closed, RelayAction::Finish(Ok(()))),
            ),
            (RelayPhase::Releasing(Err(error)), RelayEvent::TerminalReleased) => Some(
                failure(error),
            ),
            _ => None,
        }
    }

    /// The relay after `event`, and the action it asks for. A refused event
    /// changes nothing and asks for nothing.
    pub open spec fn next(self, event: RelayEvent) -> (RelayModel, Option<RelayAction>) {
        match self.transition(event) {
            Some((phase, action)) => (RelayModel { target: self.target, phase }, Some(action)),
            None => (self, None),
        }
    }
}

impl AttachError {
    /// A copy of this error.
    pub fn duplicate(&self) -> (copy: AttachError)
        ensures
            copy == *self,
    {
        match self {
            AttachError::ExecCreate(cause) => AttachError::ExecCreate(cause.clone()),
            AttachError::ExecStart(cause) => AttachError::ExecStart(cause.clone()),
            AttachError::Detached => AttachError::Detached,
        }
    }
}

impl RelayError {
    /// A copy of this error.
    pub fn duplicate(&self) -> (copy: RelayError)
        ensures
            copy == *self,
    {
        match self {
            RelayError::Attach(error) => RelayError::Attach(error.duplicate()),
            RelayError::TerminalUnavailable => RelayError::TerminalUnavailable,
            RelayError::Write(error) => RelayError::Write(error.duplicate()),
        }
    }
}

/// A session relay.
#[derive(Debug)]
pub struct SessionRelay {
    target: String,
    phase: RelayPhase,
}

impl View for SessionRelay {
    type V = RelayModel;

    closed spec fn view(&self) -> RelayModel {
        RelayModel { target: self.target, phase: self.phase }
    }
}

/// A relay for a session in the environment named `container_name`. Nothing
/// has been asked of the control plane yet.
pub fn connect(container_name: &str) -> (relay: SessionRelay)
    ensures
        relay@.target@ == container_name@,
        relay@.phase == RelayPhase::Created,
{
    SessionRelay { target: container_name.to_owned(), phase: RelayPhase::Created }
}

impl SessionRelay {
    /// The name of the environment the session runs in.
    pub fn target(&self) -> (target: &String)
        ensures
            *target == self@.target,
    {
        &self.target
    }

    /// The step the relay is at.
    pub fn phase(&self) -> (phase: &RelayPhase)
        ensures
            *phase == self@.phase,
    {
        &self.phase
    }

    /// The state the relay is in.
    pub fn stage(&self) -> (stage: Stage)
        ensures
            stage == self@.phase.stage(),
    {
        match &self.phase {
            RelayPhase::Created => Stage::Created,
            RelayPhase::CreatingExec => Stage::Attaching,
            RelayPhase::StartingExec => Stage::Attaching,
            RelayPhase::AcquiringTerminal => Stage::Attaching,
            RelayPhase::LaunchingInput => Stage::Relaying,
            RelayPhase::Pumping(_) => Stage::Relaying,
            RelayPhase::Releasing(_) => Stage::Relaying,
            RelayPhase::Closed => Stage::Closed,
            RelayPhase::Failed(_) => Stage::Failed,
        }
    }

    /// Takes `event` and returns the action to perform next. An event that
    /// cannot follow the outstanding action is refused: the relay stays as it
    /// is and `None` is returned.
    pub fn step(&mut self, event: RelayEvent) -> (action: Option<RelayAction>)
        ensures
            (final(self)@, action) == old(self)@.next(event),
    {
        let mut phase = RelayPhase::Closed;
        core::mem::swap(&mut phase, &mut self.phase);
        let (after, action) = match (phase, event) {
            (RelayPhase::Created, RelayEvent::Begin) => {
                let request = ExecRequest {
                    target: self.target.clone(),
                    command: SESSION_COMMAND,
                    attach_stdin: true,
                    attach_stdout: true,
                    attach_stderr: true,
                    tty: true,
                };
                (RelayPhase::CreatingExec, Some(RelayAction::CreateExec(request)))
            },
            (RelayPhase::CreatingExec, RelayEvent::ExecCreated(id)) => (
                RelayPhase::StartingExec,
                Some(RelayAction::StartExec(id)),
            ),
            (RelayPhase::CreatingExec, RelayEvent::ExecCreateFailed(cause)) => give_up(
                RelayError::Attach(AttachError::ExecCreate(cause)),
            ),
            (RelayPhase::StartingExec, RelayEvent::ExecAttached) => (
                RelayPhase::AcquiringTerminal,
                Some(RelayAction::AcquireTerminal),
            ),
            (RelayPhase::StartingExec, RelayEvent::ExecDetached) => give_up(
                RelayError::Attach(AttachError::Detached),
            ),
            (RelayPhase::StartingExec, RelayEvent::ExecStartFailed(cause)) => give_up(
                RelayError::Attach(AttachError::ExecStart(cause)),
            ),
            (RelayPhase::AcquiringTerminal, RelayEvent::TerminalAcquired) => (
                RelayPhase::LaunchingInput,
                Some(RelayAction::LaunchInput),
            ),
            (RelayPhase::AcquiringTerminal, RelayEvent::TerminalUnavailable) => give_up(
                RelayError::TerminalUnavailable,
            ),
            (RelayPhase::LaunchingInput, RelayEvent::InputLaunched) => {
                let (pump, _) = OutputPump::start();
                (RelayPhase::Pumping(pump), Some(RelayAction::AwaitOutput))
            },
            (RelayPhase::Pumping(pump), RelayEvent::Output(output)) => {
                let mut pump = pump;
                match pump.step(output) {
                    Some(OutputAction::Await) => (
                        RelayPhase::Pumping(pump),
                        Some(RelayAction::AwaitOutput),
                    ),
                    Some(OutputAction::Write(bytes)) => (
                        RelayPhase::Pumping(pump),
                        Some(RelayAction::Write(bytes)),
                    ),
                    Some(OutputAction::Flush) => (
                        RelayPhase::Pumping(pump),
                        Some(RelayAction::Flush),
                    ),
                    Some(OutputAction::Complete(Ok(_))) => (
                        RelayPhase::Releasing(Ok(())),
                        Some(RelayAction::ReleaseTerminal),
                    ),
                    Some(OutputAction::Complete(Err(error))) => (
                        RelayPhase::Releasing(Err(RelayError::Write(error))),
                        Some(RelayAction::ReleaseTerminal),
                    ),
                    None => (RelayPhase::Pumping(pump), None),
                }
            },
            (RelayPhase::Releasing(Ok(_)), RelayEvent::TerminalReleased) => (
                RelayPhase::Closed,
                Some(RelayAction::Finish(Ok(()))),
            ),
            (RelayPhase::Releasing(Err(error)), RelayEvent::TerminalReleased) => give_up(error),
            (unchanged, _) => (unchanged, None),
        };
        self.phase = after;
        action
    }
}

/// The step and the action with which a relay gives up for `error`.
fn give_up(error: RelayError) -> (answer: (RelayPhase, Option<RelayAction>))
    ensures
        answer.0 == failure(error).0,
        answer.1 == Some(failure(error).1),
{
    let reported = error.duplicate();
    (RelayPhase::Failed(error), Some(RelayAction::Finish(Err(reported))))
}

/// The relay after `events`, and the actions it asked for on the way, when it
/// starts as `relay`. A refused event changes nothing.
pub open spec fn relay_run(relay: RelayModel, events: Seq<RelayEvent>) -> (
    RelayModel,
    Seq<RelayAction>,
)
    decreases events.len(),
{
    if events.len() == 0 {
        (relay, Seq::empty())
    } else {
        let (before, actions) = relay_run(relay, events.drop_last());
        match before.next(events.last()) {
            (after, Some(action)) => (after, actions.push(action)),
            (after, None) => (after, actions),
        }
    }
}

/// How often `action` occurs in `actions`.
pub open spec fn occurrences(actions: Seq<RelayAction>, action: RelayAction) -> nat
    decreases actions.len(),
{
    if actions.len() == 0 {
        0
    } else {
        occurrences(actions.drop_last(), action) + if actions.last() == action {
            1nat
        } else {
            0nat
        }
    }
}

/// How often `actions` return a result to the caller.
pub open spec fn finishes(actions: Seq<RelayAction>) -> nat
    decreases actions.len(),
{
    if actions.len() == 0 {
        0
    } else {
        finishes(actions.drop_last()) + if actions.last() is Finish {
            1nat
        } else {
            0nat
        }
    }
}

/// What the actions of a relay that started as created look like when the
/// relay is at step `phase`: how often the terminal was asked for and given
/// back, whether a result was returned, and what came last.
pub open spec fn record_fits(phase: RelayPhase, actions: Seq<RelayAction>) -> bool {
    let asked = occurrences(actions, RelayAction::AcquireTerminal);
    let released = occurrences(actions, RelayAction::ReleaseTerminal);
    let returned = finishes(actions);
    match phase {
        RelayPhase::Created => actions.len() == 0,
        RelayPhase::CreatingExec | RelayPhase::StartingExec => {
            &&& asked == 0
            &&& released == 0
            &&& returned == 0
        },
        RelayPhase::AcquiringTerminal | RelayPhase::LaunchingInput | RelayPhase::Pumping(_) => {
            &&& asked == 1
            &&& released == 0
            &&& returned == 0
        },
        RelayPhase::Releasing(outcome) => {
            &&& asked == 1
            &&& released == 1
            &&& returned == 0
            &&& actions.last() == RelayAction::ReleaseTerminal
            &&& outcome matches Err(error) ==> error is Write
        },
        RelayPhase::Closed => {
            &&& asked == 1
            &&& released == 1
            &&& returned == 1
            &&& actions.len() >= 2
            &&& actions[actions.len() - 2] == RelayAction::ReleaseTerminal
            &&& actions.last() == RelayAction::Finish(Ok(()))
        },
        RelayPhase::Failed(RelayError::Write(error)) => {
            &&& asked == 1
            &&& released == 1
            &&& returned == 1
            &&& actions.len() >= 2
            &&& actions[actions.len() - 2] == RelayAction::ReleaseTerminal
            &&& actions.last() == RelayAction::Finish(Err(RelayError::Write(error)))
        },
        RelayPhase::Failed(RelayError::TerminalUnavailable) => {
            &&& asked == 1
            &&& released == 0
            &&& returned == 1
            &&& actions.last() == RelayAction::Finish(Err(RelayError::TerminalUnavailable))
        },
        RelayPhase::Failed(RelayError::Attach(error)) => {
            &&& asked == 0
            &&& released == 0
            &&& returned == 1
            &&& actions.last() == RelayAction::Finish(Err(RelayError::Attach(error)))
        },
    }
}

/// Whatever a relay is told, from its creation on, its actions fit the step
/// it is at.
pub proof fn lemma_record_fits(target: String, events: Seq<RelayEvent>)
    ensures
        record_fits(
            relay_run(RelayModel::created(target), events).0.phase,
            relay_run(RelayModel::created(target), events).1,
        ),
        relay_run(RelayModel::created(target), events).0.target == target,
    decreases events.len(),
{
    if events.len() > 0 {
        lemma_record_fits(target, events.drop_last());
        let (before, actions) = relay_run(RelayModel::created(target), events.drop_last());
        match before.next(events.last()) {
            (after, Some(action)) => {
                let extended = actions.push(action);
                assert(extended.drop_last() =~= actions);
                assert(extended.last() == action);
                if actions.len() > 0 {
                    assert(extended[extended.len() - 2] == actions.last());
                } else {
                    assert(occurrences(actions, RelayAction::AcquireTerminal) == 0);
                    assert(occurrences(actions, RelayAction::ReleaseTerminal) == 0);
                    assert(finishes(actions) == 0);
                }
                assert(record_fits(after.phase, extended));
            },
            (_, None) => {},
        }
    }
}

/// However relaying ends, with the remote output closed or with a write
/// that failed, the terminal is given back exactly once, and that is the
/// last thing the relay asks for before it returns its result. This holds
/// whatever the relay is told, from its creation on.
pub proof fn lemma_terminal_released_once_before_return(target: String, events: Seq<RelayEvent>)
    ensures
        ({
            let (relay, actions) = relay_run(RelayModel::created(target), events);
            let ended_relaying = relay.phase is Closed || (relay.phase matches RelayPhase::Failed(
                error,
            ) && error is Write);
            &&& occurrences(actions, RelayAction::ReleaseTerminal) <= 1
            &&& ended_relaying ==> {
                &&& occurrences(actions, RelayAction::ReleaseTerminal) == 1
                &&& finishes(actions) == 1
                &&& actions.len() >= 2
                &&& actions[actions.len() - 2] == RelayAction::ReleaseTerminal
                &&& actions.last() is Finish
            }
        }),
{
    lemma_record_fits(target, events);
}

/// A relay whose session could not be attached never asks for the terminal,
/// and so never gives it back either. A relay that was refused the terminal
/// asked for it once and has nothing to give back.
pub proof fn lemma_terminal_untouched_without_session(target: String, events: Seq<RelayEvent>)
    ensures
        ({
            let (relay, actions) = relay_run(RelayModel::created(target), events);
            &&& relay.phase matches RelayPhase::Failed(RelayError::Attach(_)) ==> {
                &&& occurrences(actions, RelayAction::AcquireTerminal) == 0
                &&& occurrences(actions, RelayAction::ReleaseTerminal) == 0
            }
            &&& relay.phase matches RelayPhase::Failed(RelayError::TerminalUnavailable) ==> {
                &&& occurrences(actions, RelayAction::AcquireTerminal) == 1
                &&& occurrences(actions, RelayAction::ReleaseTerminal) == 0
            }
        }),
{
    lemma_record_fits(target, events);
}

/// A relay returns a result exactly when it reaches one of its two final
/// states, and the result it returns is that state. After that it refuses
/// whatever it is told.
pub proof fn lemma_relay_returns_once(target: String, events: Seq<RelayEvent>, event: RelayEvent)
    ensures
        ({
            let (relay, actions) = relay_run(RelayModel::created(target), events);
            &&& finishes(actions) == if relay.phase.finished() {
                1nat
            } else {
                0nat
            }
            &&& relay.phase is Closed ==> actions.last() == RelayAction::Finish(Ok(()))
            &&& relay.phase matches RelayPhase::Failed(error) ==> actions.last()
                == RelayAction::Finish(Err(error))
            &&& relay.phase.finished() ==> relay.next(event) == (relay, None::<RelayAction>)
        }),
{
    lemma_record_fits(target, events);
}

} // verus!
