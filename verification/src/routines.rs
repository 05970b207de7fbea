//! The routines the CLI runs: bringing the local infrastructure up and
//! starting the two containers. Each routine's judgement — which message and
//! which outcome a given result deserves — is a function of plain values; the
//! container commands themselves are performed outside the library, which
//! feeds their outcomes in.

use vstd::prelude::*;
use crate::display::Message;
use crate::display::MessageType;
use crate::lifecycle::LifecycleState;
use crate::lifecycle::failure_details;
use crate::lifecycle::failure_message;
use crate::lifecycle::is_terminal;
use crate::lifecycle::success_message;
use crate::project::Project;

verus! {

/// Whether a routine narrates its work.
#[derive(Debug, Clone, Copy, PartialEq, Eq, Structural)]
pub enum DebugStatus {
    Debug,
    Silent,
}

/// A routine that finished, with the message to show for it.
#[derive(Debug)]
pub struct RoutineSuccess {
    pub message: Message,
    pub message_type: MessageType,
}

impl RoutineSuccess {
    pub fn success(message: Message) -> (r: RoutineSuccess)
        ensures
            r.message == message,
            r.message_type == MessageType::Success,
    {
        RoutineSuccess { message, message_type: MessageType::Success }
    }
}

/// A routine that failed: the message to show, and the rendered cause.
#[derive(Debug)]
pub struct RoutineFailure {
    pub message: Message,
    pub error: String,
}

impl RoutineFailure {
    pub fn new(message: Message, error: String) -> (r: RoutineFailure)
        ensures
            r.message == message,
            r.error == error,
    {
        RoutineFailure { message, error }
    }
}

/// Brings the local infrastructure up: the lifecycle controller's run,
/// judged as a routine.
#[derive(Debug)]
pub struct RunLocalInfratructure {
    pub debug: DebugStatus,
    pub project: Project,
}

impl RunLocalInfratructure {
    pub fn new(debug: DebugStatus, project: Project) -> (r: RunLocalInfratructure)
        ensures
            r.debug == debug,
            r.project == project,
    {
        RunLocalInfratructure { debug, project }
    }

    /// Judges the state the lifecycle controller ended in: success exactly
    /// when the bring-up reached readiness, else the failure message naming
    /// the step that failed, with the executor's rendered cause attached.
    pub fn evaluate(&self, end: &LifecycleState, cause: String) -> (r: Result<
        RoutineSuccess,
        RoutineFailure,
    >)
        requires
            is_terminal(*end),
        ensures
            *end is Ready ==> (r matches Ok(s) && s.message.action@ == "Successfully"@
                && s.message.details@ == "ran local infrastructure"@ && s.message_type
                == MessageType::Success),
            *end matches LifecycleState::Failed(e) ==> (r matches Err(f) && f.message.action@
                == "Failed"@ && f.message.details@ == failure_details(e) && f.error == cause),
    {
        match end {
            LifecycleState::Failed(e) => Err(RoutineFailure::new(failure_message(e), cause)),
            _ => Ok(RoutineSuccess::success(success_message())),
        }
    }
}

/// Starts the broker container.
#[derive(Debug)]
pub struct RunRedPandaContainer {
    pub debug: DebugStatus,
    pub project: Project,
}

impl RunRedPandaContainer {
    pub fn new(debug: DebugStatus, project: Project) -> (r: RunRedPandaContainer)
        ensures
            r.debug == debug,
            r.project == project,
    {
        RunRedPandaContainer { debug, project }
    }

    /// Judges the container start: success exactly when it came up, else the
    /// failure message with the executor's rendered cause attached.
    pub fn evaluate(&self, started: bool, cause: String) -> (r: Result<
        RoutineSuccess,
        RoutineFailure,
    >)
        ensures
            started ==> (r matches Ok(s) && s.message.action@ == "Successfully"@
                && s.message.details@ == "ran redpanda container"@),
            !started ==> (r matches Err(f) && f.message.action@ == "Failed"@
                && f.message.details@ == "to run redpanda container"@ && f.error == cause),
    {
        if started {
            Ok(
                RoutineSuccess::success(
                    Message::new("Successfully".to_owned(), "ran redpanda container".to_owned()),
                ),
            )
        } else {
            Err(
                RoutineFailure::new(
                    Message::new("Failed".to_owned(), "to run redpanda container".to_owned()),
                    cause,
                ),
            )
        }
    }
}

/// Starts the analytics-store container.
#[derive(Debug)]
pub struct RunClickhouseContainer {
    pub debug: DebugStatus,
    pub project: Project,
}

impl RunClickhouseContainer {
    pub fn new(debug: DebugStatus, project: Project) -> (r: RunClickhouseContainer)
        ensures
            r.debug == debug,
            r.project == project,
    {
        RunClickhouseContainer { debug, project }
    }

    /// Judges the container start: success exactly when it came up, else the
    /// failure message with the executor's rendered cause attached.
    pub fn evaluate(&self, started: bool, cause: String) -> (r: Result<
        RoutineSuccess,
        RoutineFailure,
    >)
        ensures
            started ==> (r matches Ok(s) && s.message.action@ == "Successfully"@
                && s.message.details@ == "ran clickhouse container"@),
            !started ==> (r matches Err(f) && f.message.action@ == "Failed"@
                && f.message.details@ == "to run clickhouse container"@ && f.error == cause),
    {
        if started {
            Ok(
                RoutineSuccess::success(
                    Message::new("Successfully".to_owned(), "ran clickhouse container".to_owned()),
                ),
            )
        } else {
            Err(
                RoutineFailure::new(
                    Message::new("Failed".to_owned(), "to run clickhouse container".to_owned()),
                    cause,
                ),
            )
        }
    }
}

} // verus!
