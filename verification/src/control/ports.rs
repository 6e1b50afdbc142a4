//! Records that the control plane reads from and writes to its ports:
//! process events, attempt states, operator controls and inputs, and the
//! read-only observation of executions.
use vstd::prelude::*;

use crate::control::error::AppError;
use crate::domain::event::WorkEvent;
use crate::domain::ids::{AttemptId, ExecutionId, WorkId};
use crate::domain::outcome::OutcomeKind;
use crate::text::{join2, str_eq};

verus! {

/// One immutable event with a store-defined, resumable cursor.
#[derive(Debug, PartialEq, Eq)]
pub struct SequencedEvent {
    pub seq: u64,
    pub event: WorkEvent,
}

/// Closed metadata-only process event set exposed to observers.
#[derive(Clone, Copy, Debug, PartialEq, Eq, Structural)]
pub enum ProcessEvent {
    Spawned,
    Exited,
    Killed,
    ChildStdout,
    ChildStderr,
}

/// The wire name of a process event.
pub open spec fn process_event_name(e: ProcessEvent) -> Seq<char> {
    match e {
        ProcessEvent::Spawned => "spawned"@,
        ProcessEvent::Exited => "exited"@,
        ProcessEvent::Killed => "killed"@,
        ProcessEvent::ChildStdout => "child_stdout"@,
        ProcessEvent::ChildStderr => "child_stderr"@,
    }
}

/// The process event whose wire name is `s`, if any.
pub open spec fn process_event_named(s: Seq<char>) -> Option<ProcessEvent> {
    if s == "spawned"@ {
        Some(ProcessEvent::Spawned)
    } else if s == "exited"@ {
        Some(ProcessEvent::Exited)
    } else if s == "killed"@ {
        Some(ProcessEvent::Killed)
    } else if s == "child_stdout"@ {
        Some(ProcessEvent::ChildStdout)
    } else if s == "child_stderr"@ {
        Some(ProcessEvent::ChildStderr)
    } else {
        None
    }
}

impl ProcessEvent {
    pub const ALL: [ProcessEvent; 5] = [
        ProcessEvent::Spawned,
        ProcessEvent::Exited,
        ProcessEvent::Killed,
        ProcessEvent::ChildStdout,
        ProcessEvent::ChildStderr,
    ];

    pub fn as_str(self) -> (r: &'static str)
        ensures
            r@ == process_event_name(self),
    {
        match self {
            ProcessEvent::Spawned => "spawned",
            ProcessEvent::Exited => "exited",
            ProcessEvent::Killed => "killed",
            ProcessEvent::ChildStdout => "child_stdout",
            ProcessEvent::ChildStderr => "child_stderr",
        }
    }

    /// Reads a persisted process event. Any other name is a store error.
    pub fn parse(value: &str) -> (r: Result<ProcessEvent, AppError>)
        ensures
            match process_event_named(value@) {
                Some(e) => r == Ok::<ProcessEvent, AppError>(e),
                None => r matches Err(AppError::Store(m)) && m@ == "unknown persisted process event "@
                    + value@,
            },
    {
        if str_eq(value, "spawned") {
            Ok(ProcessEvent::Spawned)
        } else if str_eq(value, "exited") {
            Ok(ProcessEvent::Exited)
        } else if str_eq(value, "killed") {
            Ok(ProcessEvent::Killed)
        } else if str_eq(value, "child_stdout") {
            Ok(ProcessEvent::ChildStdout)
        } else if str_eq(value, "child_stderr") {
            Ok(ProcessEvent::ChildStderr)
        } else {
            Err(AppError::Store(join2("unknown persisted process event ", value)))
        }
    }
}

/// State of one Worker attempt in the store.
#[derive(Clone, Copy, Debug, PartialEq, Eq, Structural)]
pub enum AttemptState {
    Active,
    Confirmed,
    Retried,
    Parked,
}

/// The wire name of an attempt state.
pub open spec fn attempt_state_name(s: AttemptState) -> Seq<char> {
    match s {
        AttemptState::Active => "active"@,
        AttemptState::Confirmed => "confirmed"@,
        AttemptState::Retried => "retried"@,
        AttemptState::Parked => "parked"@,
    }
}

/// The attempt state whose wire name is `s`, if any.
pub open spec fn attempt_state_named(s: Seq<char>) -> Option<AttemptState> {
    if s == "active"@ {
        Some(AttemptState::Active)
    } else if s == "confirmed"@ {
        Some(AttemptState::Confirmed)
    } else if s == "retried"@ {
        Some(AttemptState::Retried)
    } else if s == "parked"@ {
        Some(AttemptState::Parked)
    } else {
        None
    }
}

impl AttemptState {
    pub fn as_str(self) -> (r: &'static str)
        ensures
            r@ == attempt_state_name(self),
    {
        match self {
            AttemptState::Active => "active",
            AttemptState::Confirmed => "confirmed",
            AttemptState::Retried => "retried",
            AttemptState::Parked => "parked",
        }
    }

    /// Reads a persisted attempt state. Any other name is a store error.
    pub fn parse(value: &str) -> (r: Result<AttemptState, AppError>)
        ensures
            match attempt_state_named(value@) {
                Some(s) => r == Ok::<AttemptState, AppError>(s),
                None => r matches Err(AppError::Store(m)) && m@ == "unknown persisted attempt state "@
                    + value@,
            },
    {
        if str_eq(value, "active") {
            Ok(AttemptState::Active)
        } else if str_eq(value, "confirmed") {
            Ok(AttemptState::Confirmed)
        } else if str_eq(value, "retried") {
            Ok(AttemptState::Retried)
        } else if str_eq(value, "parked") {
            Ok(AttemptState::Parked)
        } else {
            Err(AppError::Store(join2("unknown persisted attempt state ", value)))
        }
    }
}

/// Durable operator request consumed by the matching active supervisor.
#[derive(Clone, Copy, Debug, PartialEq, Eq, Structural)]
pub enum ControlKind {
    Park,
    Abort,
}

/// The wire name of a control kind.
pub open spec fn control_kind_name(k: ControlKind) -> Seq<char> {
    match k {
        ControlKind::Park => "park"@,
        ControlKind::Abort => "abort"@,
    }
}

impl ControlKind {
    pub const ALL: [ControlKind; 2] = [ControlKind::Park, ControlKind::Abort];

    pub fn as_str(self) -> (r: &'static str)
        ensures
            r@ == control_kind_name(self),
    {
        match self {
            ControlKind::Park => "park",
            ControlKind::Abort => "abort",
        }
    }

    /// Reads a persisted control kind. Any other name is a store error.
    pub fn parse(value: &str) -> (r: Result<ControlKind, AppError>)
        ensures
            value@ == "park"@ ==> r == Ok::<ControlKind, AppError>(ControlKind::Park),
            value@ != "park"@ && value@ == "abort"@ ==> r == Ok::<ControlKind, AppError>(
                ControlKind::Abort,
            ),
            value@ != "park"@ && value@ != "abort"@ ==> (r matches Err(AppError::Store(m)) && m@
                == "unknown persisted control kind "@ + value@),
    {
        if str_eq(value, "park") {
            Ok(ControlKind::Park)
        } else if str_eq(value, "abort") {
            Ok(ControlKind::Abort)
        } else {
            Err(AppError::Store(join2("unknown persisted control kind ", value)))
        }
    }
}

#[derive(Clone, Copy, Debug, PartialEq, Eq, Structural)]
pub struct ControlDirective {
    pub request_id: i64,
    pub kind: ControlKind,
}

/// Kind of input an operator records for parked Work.
#[derive(Clone, Copy, Debug, PartialEq, Eq, Structural)]
pub enum OperatorInputKind {
    Answer,
    Consent,
}

impl OperatorInputKind {
    pub fn as_str(self) -> (r: &'static str)
        ensures
            self == OperatorInputKind::Answer ==> r@ == "answer"@,
            self == OperatorInputKind::Consent ==> r@ == "consent"@,
    {
        match self {
            OperatorInputKind::Answer => "answer",
            OperatorInputKind::Consent => "consent",
        }
    }
}

#[derive(Clone, Debug, PartialEq, Eq)]
pub struct OperatorInput {
    pub id: i64,
    pub kind: OperatorInputKind,
    pub body: String,
    pub created_at_unix_ms: u64,
}

#[derive(Clone, Debug, PartialEq, Eq)]
pub struct SecretRefObservation {
    pub name: String,
    pub source: String,
}

#[derive(Clone, Debug, PartialEq, Eq)]
pub struct ExecutionSpecObservation {
    pub schema_version: u32,
    pub worker_profile: String,
    pub worker_config_digest: String,
    pub runtime_kind: Option<String>,
    pub runtime_digest: String,
    pub wall_clock_budget_ms: u64,
    pub retry_limit: u32,
    pub channel_policy: String,
    pub secret_refs: Vec<SecretRefObservation>,
}

#[derive(Clone, Debug, PartialEq, Eq)]
pub struct ProcessRecordObservation {
    pub event: ProcessEvent,
    pub occurrences: u64,
    pub first_observed_at_unix_ms: u64,
    pub last_observed_at_unix_ms: u64,
    pub payload_redacted: bool,
}

#[derive(Clone, Debug, PartialEq, Eq)]
pub struct ConfirmedOutcomeObservation {
    pub schema_version: u32,
    pub kind: OutcomeKind,
    pub worker_profile: String,
    pub confirmed_at_unix_ms: u64,
}

#[derive(Debug, PartialEq, Eq)]
pub struct AttemptObservation {
    pub attempt_id: AttemptId,
    pub state: AttemptState,
    pub retry_ordinal: u32,
    pub started_at_unix_ms: u64,
    pub last_heartbeat_at_unix_ms: u64,
    pub finished_at_unix_ms: Option<u64>,
    pub terminal_reason: Option<String>,
    pub checkpoint_recorded: bool,
    pub process_records: Vec<ProcessRecordObservation>,
    pub confirmed_outcome: Option<ConfirmedOutcomeObservation>,
}

#[derive(Debug, PartialEq, Eq)]
pub struct ExecutionObservation {
    pub execution_id: ExecutionId,
    pub work_id: WorkId,
    pub created_at_unix_ms: u64,
    pub spec: ExecutionSpecObservation,
    pub attempts: Vec<AttemptObservation>,
}

/// Live, attempt-scoped observation, written only for the matching lease.
pub trait AttemptRecorder {
    fn heartbeat_attempt(
        &mut self,
        work_id: &WorkId,
        execution_id: &ExecutionId,
        attempt_id: &AttemptId,
        observed_at_unix_ms: u64,
    ) -> Result<(), AppError>;

    fn record_process_event(
        &mut self,
        work_id: &WorkId,
        execution_id: &ExecutionId,
        attempt_id: &AttemptId,
        event: ProcessEvent,
        observed_at_unix_ms: u64,
    ) -> Result<(), AppError>;

    fn control_directive(
        &mut self,
        work_id: &WorkId,
        execution_id: &ExecutionId,
        attempt_id: &AttemptId,
    ) -> Result<Option<ControlDirective>, AppError>;

    fn record_checkpoint(
        &mut self,
        work_id: &WorkId,
        execution_id: &ExecutionId,
        attempt_id: &AttemptId,
        observed_at_unix_ms: u64,
    ) -> Result<(), AppError>;
}

/// A recorder that keeps nothing, for runners used outside a claimed
/// execution: every observation succeeds and no directive ever comes.
#[derive(Clone, Copy, Debug, Default)]
pub struct DiscardAttemptRecorder;

impl AttemptRecorder for DiscardAttemptRecorder {
    fn heartbeat_attempt(
        &mut self,
        work_id: &WorkId,
        execution_id: &ExecutionId,
        attempt_id: &AttemptId,
        observed_at_unix_ms: u64,
    ) -> (r: Result<(), AppError>)
        ensures
            r is Ok,
    {
        Ok(())
    }

    fn record_process_event(
        &mut self,
        work_id: &WorkId,
        execution_id: &ExecutionId,
        attempt_id: &AttemptId,
        event: ProcessEvent,
        observed_at_unix_ms: u64,
    ) -> (r: Result<(), AppError>)
        ensures
            r is Ok,
    {
        Ok(())
    }

    fn control_directive(
        &mut self,
        work_id: &WorkId,
        execution_id: &ExecutionId,
        attempt_id: &AttemptId,
    ) -> (r: Result<Option<ControlDirective>, AppError>)
        ensures
            r matches Ok(None),
    {
        Ok(None)
    }

    fn record_checkpoint(
        &mut self,
        work_id: &WorkId,
        execution_id: &ExecutionId,
        attempt_id: &AttemptId,
        observed_at_unix_ms: u64,
    ) -> (r: Result<(), AppError>)
        ensures
            r is Ok,
    {
        Ok(())
    }
}

} // verus!
