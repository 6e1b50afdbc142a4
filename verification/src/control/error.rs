//! Application and port errors. Domain errors stay distinguishable so that
//! the command line can map them onto exit codes.
use vstd::prelude::*;

use crate::domain::error::DomainError;
use crate::domain::ids::WorkId;
use crate::domain::error::domain_error_text;
use crate::text::{join2, owned};

verus! {

/// Reaction Workengine takes for a channel error. Not parsed from Worker prose.
#[derive(Clone, Copy, Debug, PartialEq, Eq, Structural)]
pub enum ChannelReaction {
    Retry,
    Fail,
    Park,
}

/// The wire name of a channel reaction.
pub open spec fn channel_reaction_name(r: ChannelReaction) -> Seq<char> {
    match r {
        ChannelReaction::Retry => "retry"@,
        ChannelReaction::Fail => "fail"@,
        ChannelReaction::Park => "park"@,
    }
}

impl ChannelReaction {
    pub fn as_str(self) -> (r: &'static str)
        ensures
            r@ == channel_reaction_name(self),
    {
        match self {
            ChannelReaction::Retry => "retry",
            ChannelReaction::Fail => "fail",
            ChannelReaction::Park => "park",
        }
    }
}

/// Application and port errors.
#[derive(Debug)]
pub enum AppError {
    Domain(DomainError),
    NotFound(WorkId),
    Conflict(String),
    Store(String),
    Workspace(String),
    Worker(String),
    OutcomeSchema(String),
    Channel(ChannelReaction),
}

impl AppError {
    /// A store failure with a message.
    pub fn store(message: &str) -> (r: AppError)
        ensures
            r matches AppError::Store(m) && m@ == message@,
    {
        AppError::Store(owned(message))
    }

    /// A workspace failure with a message.
    pub fn workspace(message: &str) -> (r: AppError)
        ensures
            r matches AppError::Workspace(m) && m@ == message@,
    {
        AppError::Workspace(owned(message))
    }

    /// A Worker failure with a message.
    pub fn worker(message: &str) -> (r: AppError)
        ensures
            r matches AppError::Worker(m) && m@ == message@,
    {
        AppError::Worker(owned(message))
    }

    /// An outcome that breaks its schema, with a message.
    pub fn outcome_schema(message: &str) -> (r: AppError)
        ensures
            r matches AppError::OutcomeSchema(m) && m@ == message@,
    {
        AppError::OutcomeSchema(owned(message))
    }

    /// A conflict with the current state, with a message.
    pub fn conflict(message: &str) -> (r: AppError)
        ensures
            r matches AppError::Conflict(m) && m@ == message@,
    {
        AppError::Conflict(owned(message))
    }
}

impl From<DomainError> for AppError {
    fn from(err: DomainError) -> (r: AppError) {
        AppError::Domain(err)
    }
}

impl vstd::std_specs::convert::FromSpecImpl<DomainError> for AppError {
    open spec fn obeys_from_spec() -> bool {
        true
    }

    open spec fn from_spec(v: DomainError) -> AppError {
        AppError::Domain(v)
    }
}

/// The message of an application error.
pub open spec fn app_error_text(e: AppError) -> Seq<char> {
    match e {
        AppError::Domain(d) => domain_error_text(d),
        AppError::NotFound(id) => "work not found: "@ + id@,
        AppError::Conflict(m) => "store conflict: "@ + m@,
        AppError::Store(m) => "store: "@ + m@,
        AppError::Workspace(m) => "workspace: "@ + m@,
        AppError::Worker(m) => "worker: "@ + m@,
        AppError::OutcomeSchema(m) => "outcome schema: "@ + m@,
        AppError::Channel(r) => "channel error ("@ + channel_reaction_name(r) + ")"@,
    }
}

impl AppError {
    /// The human-readable message of the error.
    pub fn describe(&self) -> (r: String)
        ensures
            r@ == app_error_text(*self),
    {
        match self {
            AppError::Domain(d) => d.describe(),
            AppError::NotFound(id) => join2("work not found: ", id.as_str()),
            AppError::Conflict(m) => join2("store conflict: ", m.as_str()),
            AppError::Store(m) => join2("store: ", m.as_str()),
            AppError::Workspace(m) => join2("workspace: ", m.as_str()),
            AppError::Worker(m) => join2("worker: ", m.as_str()),
            AppError::OutcomeSchema(m) => join2("outcome schema: ", m.as_str()),
            AppError::Channel(r) => crate::text::join3("channel error (", r.as_str(), ")"),
        }
    }
}

} // verus!
