//! The closed set of Work lifecycle statuses.
use vstd::prelude::*;

use crate::domain::error::DomainError;
use crate::text::{owned, str_eq};

verus! {

/// Closed lifecycle statuses of a Work.
#[derive(Clone, Copy, Debug, PartialEq, Eq, Hash, Structural)]
pub enum WorkStatus {
    Ready,
    Running,
    Succeeded,
    Failed,
    Parked,
}

/// The wire name of a status.
pub open spec fn status_name(s: WorkStatus) -> Seq<char> {
    match s {
        WorkStatus::Ready => "ready"@,
        WorkStatus::Running => "running"@,
        WorkStatus::Succeeded => "succeeded"@,
        WorkStatus::Failed => "failed"@,
        WorkStatus::Parked => "parked"@,
    }
}

/// The status whose wire name is `s`, if any.
pub open spec fn status_named(s: Seq<char>) -> Option<WorkStatus> {
    if s == "ready"@ {
        Some(WorkStatus::Ready)
    } else if s == "running"@ {
        Some(WorkStatus::Running)
    } else if s == "succeeded"@ {
        Some(WorkStatus::Succeeded)
    } else if s == "failed"@ {
        Some(WorkStatus::Failed)
    } else if s == "parked"@ {
        Some(WorkStatus::Parked)
    } else {
        None
    }
}

/// A status from which no transition leads on: `succeeded` or `failed`.
pub open spec fn is_terminal(s: WorkStatus) -> bool {
    s == WorkStatus::Succeeded || s == WorkStatus::Failed
}

impl WorkStatus {
    pub const ALL: [WorkStatus; 5] = [
        WorkStatus::Ready,
        WorkStatus::Running,
        WorkStatus::Succeeded,
        WorkStatus::Failed,
        WorkStatus::Parked,
    ];

    pub fn as_str(self) -> (r: &'static str)
        ensures
            r@ == status_name(self),
    {
        match self {
            WorkStatus::Ready => "ready",
            WorkStatus::Running => "running",
            WorkStatus::Succeeded => "succeeded",
            WorkStatus::Failed => "failed",
            WorkStatus::Parked => "parked",
        }
    }

    /// Reads a status from its wire name. Any other name is a schema error.
    pub fn parse(s: &str) -> (r: Result<WorkStatus, DomainError>)
        ensures
            match status_named(s@) {
                Some(st) => r == Ok::<WorkStatus, DomainError>(st),
                None => r matches Err(DomainError::UnknownStatus(t)) && t@ == s@,
            },
    {
        if str_eq(s, "ready") {
            Ok(WorkStatus::Ready)
        } else if str_eq(s, "running") {
            Ok(WorkStatus::Running)
        } else if str_eq(s, "succeeded") {
            Ok(WorkStatus::Succeeded)
        } else if str_eq(s, "failed") {
            Ok(WorkStatus::Failed)
        } else if str_eq(s, "parked") {
            Ok(WorkStatus::Parked)
        } else {
            Err(DomainError::UnknownStatus(owned(s)))
        }
    }
}

impl core::str::FromStr for WorkStatus {
    type Err = DomainError;

    fn from_str(s: &str) -> (r: Result<WorkStatus, DomainError>)
        ensures
            match status_named(s@) {
                Some(st) => r == Ok::<WorkStatus, DomainError>(st),
                None => r matches Err(DomainError::UnknownStatus(t)) && t@ == s@,
            },
    {
        WorkStatus::parse(s)
    }
}

/// Every status is read back from its own wire name, and the five names are
/// distinct.
pub proof fn lemma_status_name_roundtrip(s: WorkStatus)
    ensures
        status_named(status_name(s)) == Some(s),
{
    reveal_strlit("ready");
    reveal_strlit("running");
    reveal_strlit("succeeded");
    reveal_strlit("failed");
    reveal_strlit("parked");
    assert("ready"@.len() == 5);
    assert("running"@.len() == 7);
    assert("succeeded"@.len() == 9);
    assert("failed"@[0] == 'f' && "parked"@[0] == 'p');
}

} // verus!
