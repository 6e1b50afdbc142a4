//! How a supervised Worker's end is settled, for the stub Worker (a real
//! process that writes a schema-valid outcome) and the process Worker.
use vstd::prelude::*;

use crate::control::error::{AppError, ChannelReaction};
use crate::domain::outcome::{Outcome, OutcomeKind};
use crate::text::{join2, str_eq};

verus! {

/// What the stub Worker does when it runs.
#[derive(Clone, Copy, Debug, PartialEq, Eq, Structural)]
pub enum StubBehavior {
    Succeed,
    Fail,
    Hang,
    ExceedBudget,
    ChannelFail,
    ChannelPark,
    ChannelRetry,
    AwaitControl,
}

/// The configuration name of a stub behavior.
pub open spec fn stub_behavior_name(b: StubBehavior) -> Seq<char> {
    match b {
        StubBehavior::Succeed => "succeed"@,
        StubBehavior::Fail => "fail"@,
        StubBehavior::Hang => "hang"@,
        StubBehavior::ExceedBudget => "exceed_budget"@,
        StubBehavior::ChannelFail => "channel_fail"@,
        StubBehavior::ChannelPark => "channel_park"@,
        StubBehavior::ChannelRetry => "channel_retry"@,
        StubBehavior::AwaitControl => "await_control"@,
    }
}

/// The stub behavior a configuration name selects.
pub open spec fn stub_behavior_named(s: Seq<char>) -> Option<StubBehavior> {
    if s == "succeed"@ {
        Some(StubBehavior::Succeed)
    } else if s == "fail"@ {
        Some(StubBehavior::Fail)
    } else if s == "hang"@ {
        Some(StubBehavior::Hang)
    } else if s == "exceed_budget"@ {
        Some(StubBehavior::ExceedBudget)
    } else if s == "channel_fail"@ {
        Some(StubBehavior::ChannelFail)
    } else if s == "channel_park"@ {
        Some(StubBehavior::ChannelPark)
    } else if s == "channel_retry"@ {
        Some(StubBehavior::ChannelRetry)
    } else if s == "await_control"@ {
        Some(StubBehavior::AwaitControl)
    } else {
        None
    }
}

impl StubBehavior {
    /// Reads a behavior from its configuration name; anything else is
    /// `unknown stub behavior <name>`.
    pub fn parse(s: &str) -> (r: Result<StubBehavior, String>)
        ensures
            match stub_behavior_named(s@) {
                Some(b) => r == Ok::<StubBehavior, String>(b),
                None => r matches Err(m) && m@ == "unknown stub behavior "@ + s@,
            },
    {
        if str_eq(s, "succeed") {
            Ok(StubBehavior::Succeed)
        } else if str_eq(s, "fail") {
            Ok(StubBehavior::Fail)
        } else if str_eq(s, "hang") {
            Ok(StubBehavior::Hang)
        } else if str_eq(s, "exceed_budget") {
            Ok(StubBehavior::ExceedBudget)
        } else if str_eq(s, "channel_fail") {
            Ok(StubBehavior::ChannelFail)
        } else if str_eq(s, "channel_park") {
            Ok(StubBehavior::ChannelPark)
        } else if str_eq(s, "channel_retry") {
            Ok(StubBehavior::ChannelRetry)
        } else if str_eq(s, "await_control") {
            Ok(StubBehavior::AwaitControl)
        } else {
            Err(join2("unknown stub behavior ", s))
        }
    }

    /// The configuration name of the behavior.
    pub fn as_str(self) -> (r: &'static str)
        ensures
            r@ == stub_behavior_name(self),
    {
        match self {
            StubBehavior::Succeed => "succeed",
            StubBehavior::Fail => "fail",
            StubBehavior::Hang => "hang",
            StubBehavior::ExceedBudget => "exceed_budget",
            StubBehavior::ChannelFail => "channel_fail",
            StubBehavior::ChannelPark => "channel_park",
            StubBehavior::ChannelRetry => "channel_retry",
            StubBehavior::AwaitControl => "await_control",
        }
    }
}

/// Every behavior is read back from its own name.
pub proof fn lemma_stub_behavior_name_roundtrip(b: StubBehavior)
    ensures
        stub_behavior_named(stub_behavior_name(b)) == Some(b),
{
    reveal_strlit("succeed");
    reveal_strlit("fail");
    reveal_strlit("hang");
    reveal_strlit("exceed_budget");
    reveal_strlit("channel_fail");
    reveal_strlit("channel_park");
    reveal_strlit("channel_retry");
    reveal_strlit("await_control");
    assert("succeed"@.len() == 7);
    assert("fail"@.len() == 4);
    assert("hang"@.len() == 4 && "hang"@[0] != "fail"@[0]);
    assert("exceed_budget"@.len() == 13);
    assert("channel_fail"@.len() == 12 && "channel_park"@.len() == 12);
    assert("channel_fail"@[8] != "channel_park"@[8]);
    assert("channel_retry"@.len() == 13 && "channel_retry"@[0] != "exceed_budget"@[0]);
    assert("await_control"@.len() == 13 && "await_control"@[0] != "exceed_budget"@[0]);
    assert("await_control"@[0] != "channel_retry"@[0]);
}

impl core::str::FromStr for StubBehavior {
    type Err = String;

    fn from_str(s: &str) -> (r: Result<StubBehavior, String>)
        ensures
            match stub_behavior_named(s@) {
                Some(b) => r == Ok::<StubBehavior, String>(b),
                None => r matches Err(m) && m@ == "unknown stub behavior "@ + s@,
            },
    {
        StubBehavior::parse(s)
    }
}

/// A Worker that is a real process writing a schema-valid outcome, with a
/// behavior chosen for tests and demonstrations.
#[derive(Clone, Debug)]
pub struct StubWorkerRunner {
    behavior: StubBehavior,
}

impl StubWorkerRunner {
    pub fn new(behavior: StubBehavior) -> (r: StubWorkerRunner)
        ensures
            r.behavior() == behavior,
    {
        StubWorkerRunner { behavior }
    }

    pub closed spec fn behavior(&self) -> StubBehavior {
        self.behavior
    }

    /// The behavior the runner was built with.
    pub fn behavior_of(&self) -> (r: StubBehavior)
        ensures
            r == self.behavior(),
    {
        self.behavior
    }
}

/// The shell script a stub behavior runs in its directory, if it spawns
/// one: the writer copies its prepared outcome into place and prints one
/// line; the budget stub sleeps; the hang stub also leaves a grandchild and
/// its pid; the control stub waits for a checkpoint request, answers it, and
/// then idles.
pub open spec fn stub_script_spec(b: StubBehavior) -> Option<Seq<char>> {
    match b {
        StubBehavior::Succeed | StubBehavior::Fail => Some(
            "cp .outcome-payload.json outcome.json && printf '%s\\n' stub"@,
        ),
        StubBehavior::ExceedBudget => Some("exec sleep 30"@),
        StubBehavior::Hang => Some("sleep 30 & echo $! > child.pid; exec sleep 30"@),
        StubBehavior::AwaitControl => Some(
            "while [ ! -f checkpoint-request.json ]; do sleep 0.01; done; cp .checkpoint-payload.json checkpoint.json; while :; do sleep 1; done"@,
        ),
        _ => None,
    }
}

/// The script of a stub behavior.
pub fn stub_script(b: StubBehavior) -> (r: Option<&'static str>)
    ensures
        match r {
            Some(s) => stub_script_spec(b) == Some(s@),
            None => stub_script_spec(b) is None,
        },
{
    match b {
        StubBehavior::Succeed | StubBehavior::Fail => Some(
            "cp .outcome-payload.json outcome.json && printf '%s\\n' stub",
        ),
        StubBehavior::ExceedBudget => Some("exec sleep 30"),
        StubBehavior::Hang => Some("sleep 30 & echo $! > child.pid; exec sleep 30"),
        StubBehavior::AwaitControl => Some(
            "while [ ! -f checkpoint-request.json ]; do sleep 0.01; done; cp .checkpoint-payload.json checkpoint.json; while :; do sleep 1; done",
        ),
        _ => None,
    }
}

/// How a supervised child ended.
#[derive(Clone, Copy, Debug, PartialEq, Eq, Structural)]
pub enum ChildWait {
    Exited { success: bool },
    BudgetExceeded,
    Parked { control_request_id: Option<i64> },
    Aborted { control_request_id: i64 },
}

/// How a Worker run ended for the control plane.
#[derive(Debug)]
pub enum WorkerExit {
    Completed(Outcome),
    Parked { control_request_id: Option<i64> },
    Aborted { control_request_id: i64 },
}

/// What is left to do once a supervised child has ended.
#[derive(Debug)]
pub enum Settlement {
    /// Read and decode the outcome the Worker wrote.
    ReadOutcome,
    /// Write a control-plane outcome of this kind and complete with it.
    Persist(OutcomeKind),
    /// The run was parked by an operator request.
    Parked { control_request_id: Option<i64> },
    /// The run was aborted by an operator request.
    Aborted { control_request_id: i64 },
    /// The run fails with this error.
    Fail(AppError),
}

/// The Worker error a settlement fails with.
pub open spec fn fails_with(s: Settlement, message: Seq<char>) -> bool {
    s matches Settlement::Fail(e) && (e matches AppError::Worker(m) && m@ == message)
}

/// A stub behavior that runs no child: the channel failures and the park
/// that leaves an attempt-scoped checkpoint.
pub open spec fn stub_without_child(b: StubBehavior) -> bool {
    b is ChannelFail || b is ChannelRetry || b is ChannelPark
}

/// How a stub run is settled after its child ended: the writer reads its
/// outcome on a clean exit and fails on an unclean one; budget exhaustion
/// is `budget_exceeded`, except for the hang stub, whose is `timed_out`;
/// an early exit of a stub meant to outlive its budget is an error; parks
/// and aborts pass through.
pub open spec fn stub_settlement_ok(b: StubBehavior, wait: ChildWait, s: Settlement) -> bool {
    match wait {
        ChildWait::Parked { control_request_id } => s == Settlement::Parked { control_request_id },
        ChildWait::Aborted { control_request_id } => s == Settlement::Aborted { control_request_id },
        ChildWait::BudgetExceeded => if b is Hang {
            s == Settlement::Persist(OutcomeKind::TimedOut)
        } else {
            s == Settlement::Persist(OutcomeKind::BudgetExceeded)
        },
        ChildWait::Exited { success } => match b {
            StubBehavior::Succeed | StubBehavior::Fail => if success {
                s is ReadOutcome
            } else {
                fails_with(s, "stub worker exited unsuccessfully"@)
            },
            StubBehavior::ExceedBudget => fails_with(s, "budget stub exited before budget"@),
            StubBehavior::Hang => fails_with(s, "hang stub exited before budget"@),
            _ => fails_with(s, "control stub exited unexpectedly"@),
        },
    }
}

/// Settles a stub run whose child ended as `wait`.
pub fn settle_stub(b: StubBehavior, wait: ChildWait) -> (r: Settlement)
    requires
        !stub_without_child(b),
    ensures
        stub_settlement_ok(b, wait, r),
{
    match wait {
        ChildWait::Parked { control_request_id } => Settlement::Parked { control_request_id },
        ChildWait::Aborted { control_request_id } => Settlement::Aborted { control_request_id },
        ChildWait::BudgetExceeded => {
            if b == StubBehavior::Hang {
                Settlement::Persist(OutcomeKind::TimedOut)
            } else {
                Settlement::Persist(OutcomeKind::BudgetExceeded)
            }
        },
        ChildWait::Exited { success } => match b {
            StubBehavior::Succeed | StubBehavior::Fail => {
                if success {
                    Settlement::ReadOutcome
                } else {
                    Settlement::Fail(AppError::worker("stub worker exited unsuccessfully"))
                }
            },
            StubBehavior::ExceedBudget => Settlement::Fail(
                AppError::worker("budget stub exited before budget"),
            ),
            StubBehavior::Hang => Settlement::Fail(AppError::worker("hang stub exited before budget")),
            _ => Settlement::Fail(AppError::worker("control stub exited unexpectedly")),
        },
    }
}

/// What a stub behavior that runs no child ends with: a channel failure
/// classified as fail or retry, or a park with no operator request.
pub fn stub_without_child_exit(b: StubBehavior) -> (r: Result<WorkerExit, AppError>)
    requires
        stub_without_child(b),
    ensures
        b is ChannelFail ==> r matches Err(AppError::Channel(ChannelReaction::Fail)),
        b is ChannelRetry ==> r matches Err(AppError::Channel(ChannelReaction::Retry)),
        b is ChannelPark ==> r matches Ok(WorkerExit::Parked { control_request_id: None }),
{
    match b {
        StubBehavior::ChannelFail => Err(AppError::Channel(ChannelReaction::Fail)),
        StubBehavior::ChannelRetry => Err(AppError::Channel(ChannelReaction::Retry)),
        _ => Ok(WorkerExit::Parked { control_request_id: None }),
    }
}

/// The outcome kind the stub writer prepares for a behavior.
pub open spec fn writer_kind(b: StubBehavior) -> OutcomeKind {
    if b is Fail {
        OutcomeKind::Failed
    } else {
        OutcomeKind::Succeeded
    }
}

/// The kind of outcome the stub writer prepares: `failed` for the failing
/// stub, `succeeded` otherwise.
pub fn stub_writer_kind(b: StubBehavior) -> (r: OutcomeKind)
    ensures
        r == writer_kind(b),
{
    if b == StubBehavior::Fail {
        OutcomeKind::Failed
    } else {
        OutcomeKind::Succeeded
    }
}

/// How a process Worker's run is settled: an exit means reading the outcome
/// it wrote; budget exhaustion is `timed_out`; parks and aborts pass
/// through; a supervision failure is a channel failure.
pub open spec fn process_settlement_ok(wait: Result<ChildWait, AppError>, s: Settlement) -> bool {
    match wait {
        Err(_) => s == Settlement::Fail(AppError::Channel(ChannelReaction::Fail)),
        Ok(ChildWait::Exited { .. }) => s is ReadOutcome,
        Ok(ChildWait::BudgetExceeded) => s == Settlement::Persist(OutcomeKind::TimedOut),
        Ok(ChildWait::Parked { control_request_id }) => s == Settlement::Parked {
            control_request_id,
        },
        Ok(ChildWait::Aborted { control_request_id }) => s == Settlement::Aborted {
            control_request_id,
        },
    }
}

/// Settles a process Worker's run.
pub fn settle_process(wait: Result<ChildWait, AppError>) -> (r: Settlement)
    ensures
        process_settlement_ok(wait, r),
{
    match wait {
        Err(_) => Settlement::Fail(AppError::Channel(ChannelReaction::Fail)),
        Ok(ChildWait::Exited { .. }) => Settlement::ReadOutcome,
        Ok(ChildWait::BudgetExceeded) => Settlement::Persist(OutcomeKind::TimedOut),
        Ok(ChildWait::Parked { control_request_id }) => Settlement::Parked { control_request_id },
        Ok(ChildWait::Aborted { control_request_id }) => Settlement::Aborted { control_request_id },
    }
}

/// Whether an owned container must be torn down: every end but a plain exit.
pub fn needs_container_reclaim(wait: &Result<ChildWait, AppError>) -> (r: bool)
    ensures
        r == !(wait matches Ok(ChildWait::Exited { .. })),
{
    !matches!(wait, Ok(ChildWait::Exited { .. }))
}

/// The outcome of a process Worker that wrote none: `failed` under the
/// Work's profile, never `succeeded`.
pub fn missing_outcome(worker_profile: &str) -> (r: Result<Outcome, AppError>)
    ensures
        worker_profile@.len() > 0 ==> (r matches Ok(o) && o@ == (crate::domain::outcome::OutcomeView {
            schema_version: crate::domain::outcome::OUTCOME_SCHEMA_VERSION,
            kind: OutcomeKind::Failed,
            worker_profile: worker_profile@,
        })),
        worker_profile@.len() == 0 ==> r matches Err(AppError::Domain(
            crate::domain::error::DomainError::InvalidAttributes,
        )),
{
    match Outcome::new(crate::domain::outcome::OUTCOME_SCHEMA_VERSION, OutcomeKind::Failed, worker_profile) {
        Ok(o) => Ok(o),
        Err(e) => Err(AppError::Domain(e)),
    }
}

} // verus!
