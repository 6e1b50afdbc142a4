//! Closed Worker outcomes and the status that each one leads to.
use vstd::prelude::*;
use vstd::string::StrSliceExecFns;

use crate::domain::error::DomainError;
use crate::domain::status::WorkStatus;
use crate::text::{owned, str_eq};

verus! {

/// Schema version of the Worker outcome artifact.
pub const OUTCOME_SCHEMA_VERSION: u32 = 1;

/// Closed set of Worker outcome kinds. Unknown kinds are a schema error.
#[derive(Clone, Copy, Debug, PartialEq, Eq, Hash, Structural)]
pub enum OutcomeKind {
    Succeeded,
    Failed,
    TimedOut,
    BudgetExceeded,
    ChannelError,
}

/// The wire name of an outcome kind.
pub open spec fn outcome_kind_name(k: OutcomeKind) -> Seq<char> {
    match k {
        OutcomeKind::Succeeded => "succeeded"@,
        OutcomeKind::Failed => "failed"@,
        OutcomeKind::TimedOut => "timed_out"@,
        OutcomeKind::BudgetExceeded => "budget_exceeded"@,
        OutcomeKind::ChannelError => "channel_error"@,
    }
}

/// The outcome kind whose wire name is `s`, if any.
pub open spec fn outcome_kind_named(s: Seq<char>) -> Option<OutcomeKind> {
    if s == "succeeded"@ {
        Some(OutcomeKind::Succeeded)
    } else if s == "failed"@ {
        Some(OutcomeKind::Failed)
    } else if s == "timed_out"@ {
        Some(OutcomeKind::TimedOut)
    } else if s == "budget_exceeded"@ {
        Some(OutcomeKind::BudgetExceeded)
    } else if s == "channel_error"@ {
        Some(OutcomeKind::ChannelError)
    } else {
        None
    }
}

/// The Work status that an outcome leads to: only `succeeded` succeeds;
/// every other kind fails closed.
pub open spec fn outcome_status(k: OutcomeKind) -> WorkStatus {
    match k {
        OutcomeKind::Succeeded => WorkStatus::Succeeded,
        _ => WorkStatus::Failed,
    }
}

impl OutcomeKind {
    pub const ALL: [OutcomeKind; 5] = [
        OutcomeKind::Succeeded,
        OutcomeKind::Failed,
        OutcomeKind::TimedOut,
        OutcomeKind::BudgetExceeded,
        OutcomeKind::ChannelError,
    ];

    pub fn as_str(self) -> (r: &'static str)
        ensures
            r@ == outcome_kind_name(self),
    {
        match self {
            OutcomeKind::Succeeded => "succeeded",
            OutcomeKind::Failed => "failed",
            OutcomeKind::TimedOut => "timed_out",
            OutcomeKind::BudgetExceeded => "budget_exceeded",
            OutcomeKind::ChannelError => "channel_error",
        }
    }

    /// Maps a closed outcome onto a Work status. The Worker does not choose this.
    pub fn to_status(self) -> (r: WorkStatus)
        ensures
            r == outcome_status(self),
    {
        match self {
            OutcomeKind::Succeeded => WorkStatus::Succeeded,
            OutcomeKind::Failed
            | OutcomeKind::TimedOut
            | OutcomeKind::BudgetExceeded
            | OutcomeKind::ChannelError => WorkStatus::Failed,
        }
    }

    /// Reads an outcome kind from its wire name.
    pub fn parse(s: &str) -> (r: Result<OutcomeKind, DomainError>)
        ensures
            match outcome_kind_named(s@) {
                Some(k) => r == Ok::<OutcomeKind, DomainError>(k),
                None => r matches Err(DomainError::UnknownOutcomeKind(t)) && t@ == s@,
            },
    {
        if str_eq(s, "succeeded") {
            Ok(OutcomeKind::Succeeded)
        } else if str_eq(s, "failed") {
            Ok(OutcomeKind::Failed)
        } else if str_eq(s, "timed_out") {
            Ok(OutcomeKind::TimedOut)
        } else if str_eq(s, "budget_exceeded") {
            Ok(OutcomeKind::BudgetExceeded)
        } else if str_eq(s, "channel_error") {
            Ok(OutcomeKind::ChannelError)
        } else {
            Err(DomainError::UnknownOutcomeKind(owned(s)))
        }
    }
}

impl core::str::FromStr for OutcomeKind {
    type Err = DomainError;

    fn from_str(s: &str) -> (r: Result<OutcomeKind, DomainError>)
        ensures
            match outcome_kind_named(s@) {
                Some(k) => r == Ok::<OutcomeKind, DomainError>(k),
                None => r matches Err(DomainError::UnknownOutcomeKind(t)) && t@ == s@,
            },
    {
        OutcomeKind::parse(s)
    }
}

/// Every outcome kind is read back from its own wire name.
pub proof fn lemma_outcome_kind_name_roundtrip(k: OutcomeKind)
    ensures
        outcome_kind_named(outcome_kind_name(k)) == Some(k),
{
    reveal_strlit("succeeded");
    reveal_strlit("failed");
    reveal_strlit("timed_out");
    reveal_strlit("budget_exceeded");
    reveal_strlit("channel_error");
    assert("succeeded"@.len() == 9);
    assert("failed"@.len() == 6);
    assert("timed_out"@[0] == 't');
    assert("budget_exceeded"@.len() == 15);
    assert("channel_error"@[0] == 'c');
}

/// What an outcome says: schema version, kind, and the profile that wrote it.
pub struct OutcomeView {
    pub schema_version: u32,
    pub kind: OutcomeKind,
    pub worker_profile: Seq<char>,
}

/// Versioned Worker outcome. Authorship is the Worker profile that produced it.
#[derive(Debug, PartialEq, Eq)]
pub struct Outcome {
    schema_version: u32,
    kind: OutcomeKind,
    worker_profile: String,
}

impl View for Outcome {
    type V = OutcomeView;

    closed spec fn view(&self) -> OutcomeView {
        OutcomeView {
            schema_version: self.schema_version,
            kind: self.kind,
            worker_profile: self.worker_profile@,
        }
    }
}

impl Clone for Outcome {
    fn clone(&self) -> (r: Self)
        ensures
            r@ == self@,
    {
        Outcome {
            schema_version: self.schema_version,
            kind: self.kind,
            worker_profile: self.worker_profile.clone(),
        }
    }
}

impl Outcome {
    /// Builds an outcome. Rejects any schema version but the current one, and
    /// an empty profile.
    pub fn new(schema_version: u32, kind: OutcomeKind, worker_profile: &str) -> (r: Result<
        Outcome,
        DomainError,
    >)
        ensures
            schema_version != OUTCOME_SCHEMA_VERSION ==> r == Err::<Outcome, DomainError>(
                DomainError::UnsupportedSchemaVersion(schema_version),
            ),
            schema_version == OUTCOME_SCHEMA_VERSION && worker_profile@.len() == 0 ==> r
                == Err::<Outcome, DomainError>(DomainError::InvalidAttributes),
            schema_version == OUTCOME_SCHEMA_VERSION && worker_profile@.len() > 0 ==> (r matches Ok(
                o,
            ) && o@ == (OutcomeView { schema_version, kind, worker_profile: worker_profile@ })),
    {
        if schema_version != OUTCOME_SCHEMA_VERSION {
            return Err(DomainError::UnsupportedSchemaVersion(schema_version));
        }
        if worker_profile.unicode_len() == 0 {
            return Err(DomainError::InvalidAttributes);
        }
        Ok(Outcome { schema_version, kind, worker_profile: owned(worker_profile) })
    }

    pub fn schema_version(&self) -> (r: u32)
        ensures
            r == self@.schema_version,
    {
        self.schema_version
    }

    pub fn kind(&self) -> (r: OutcomeKind)
        ensures
            r == self@.kind,
    {
        self.kind
    }

    pub fn worker_profile(&self) -> (r: &str)
        ensures
            r@ == self@.worker_profile,
    {
        self.worker_profile.as_str()
    }
}

} // verus!
