//! Errors that originate in the domain. None of them come from I/O.
use vstd::prelude::*;

use crate::decimal::{decimal, decimal_spec};
use crate::domain::status::{status_name, WorkStatus};
use crate::external::{debug_quote, debug_quoted};
use crate::text::{join2, join3, owned};
use vstd::string::StringExecFns;

verus! {

/// Errors that originate in the domain.
#[derive(Clone, Debug, PartialEq, Eq)]
pub enum DomainError {
    IllegalTransition { from: WorkStatus, to: WorkStatus, via: &'static str },
    UnknownStatus(String),
    UnknownOutcomeKind(String),
    UnknownEventKind(String),
    UnknownRelationKind(String),
    InvalidWorkId,
    InvalidAttemptId,
    InvalidExecutionId,
    InvalidProjectId,
    InvalidAttributes,
    InvalidRelation,
    InvalidExecutionSpec,
    InvalidConfirmedOutcome,
    UnsupportedSchemaVersion(u32),
    EmptyReplay,
    TerminalConflict(WorkStatus),
    CannotBindWorkspace(WorkStatus),
}

/// The message of a domain error.
pub open spec fn domain_error_text(e: DomainError) -> Seq<char> {
    match e {
        DomainError::IllegalTransition { from, to, via } => "illegal transition from "@ + status_name(
            from,
        ) + " to "@ + status_name(to) + " via "@ + via@,
        DomainError::UnknownStatus(s) => "unknown work status "@ + debug_quoted(s@),
        DomainError::UnknownOutcomeKind(s) => "unknown outcome kind "@ + debug_quoted(s@),
        DomainError::UnknownEventKind(s) => "unknown event kind "@ + debug_quoted(s@),
        DomainError::UnknownRelationKind(s) => "unknown relation kind "@ + debug_quoted(s@),
        DomainError::InvalidWorkId => "invalid work id"@,
        DomainError::InvalidAttemptId => "invalid attempt id"@,
        DomainError::InvalidExecutionId => "invalid execution id"@,
        DomainError::InvalidProjectId => "invalid project id"@,
        DomainError::InvalidAttributes => "invalid work attributes"@,
        DomainError::InvalidRelation => "invalid work relation"@,
        DomainError::InvalidExecutionSpec => "invalid execution spec"@,
        DomainError::InvalidConfirmedOutcome => "invalid confirmed outcome"@,
        DomainError::UnsupportedSchemaVersion(v) => "unsupported schema version "@ + decimal_spec(
            v as nat,
        ),
        DomainError::EmptyReplay => "cannot replay an empty event list"@,
        DomainError::TerminalConflict(s) => "complete conflicts with terminal status "@
            + status_name(s),
        DomainError::CannotBindWorkspace(s) => "cannot bind a workspace in status "@ + status_name(
            s,
        ),
    }
}

impl DomainError {
    /// The human-readable message of the error.
    pub fn describe(&self) -> (r: String)
        ensures
            r@ == domain_error_text(*self),
    {
        match self {
            DomainError::IllegalTransition { from, to, via } => {
                let mut s = join3("illegal transition from ", from.as_str(), " to ");
                s.append(to.as_str());
                s.append(" via ");
                s.append(via);
                s
            },
            DomainError::UnknownStatus(v) => join2("unknown work status ", debug_quote(v.as_str()).as_str()),
            DomainError::UnknownOutcomeKind(v) => join2(
                "unknown outcome kind ",
                debug_quote(v.as_str()).as_str(),
            ),
            DomainError::UnknownEventKind(v) => join2("unknown event kind ", debug_quote(v.as_str()).as_str()),
            DomainError::UnknownRelationKind(v) => join2(
                "unknown relation kind ",
                debug_quote(v.as_str()).as_str(),
            ),
            DomainError::InvalidWorkId => owned("invalid work id"),
            DomainError::InvalidAttemptId => owned("invalid attempt id"),
            DomainError::InvalidExecutionId => owned("invalid execution id"),
            DomainError::InvalidProjectId => owned("invalid project id"),
            DomainError::InvalidAttributes => owned("invalid work attributes"),
            DomainError::InvalidRelation => owned("invalid work relation"),
            DomainError::InvalidExecutionSpec => owned("invalid execution spec"),
            DomainError::InvalidConfirmedOutcome => owned("invalid confirmed outcome"),
            DomainError::UnsupportedSchemaVersion(v) => join2(
                "unsupported schema version ",
                decimal(*v as u64).as_str(),
            ),
            DomainError::EmptyReplay => owned("cannot replay an empty event list"),
            DomainError::TerminalConflict(s) => join2("complete conflicts with terminal status ", s.as_str()),
            DomainError::CannotBindWorkspace(s) => join2("cannot bind a workspace in status ", s.as_str()),
        }
    }
}

} // verus!
