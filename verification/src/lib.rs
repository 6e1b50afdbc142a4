//! Workengine: the verified core of a durable runtime for coding agents.
//!
//! Identifiers, the Work lifecycle state machine, closed outcomes, the
//! append-only event log and its replay, execution snapshots, and the
//! decisions that the control plane takes around them.
pub mod api;
pub mod cli;
pub mod control;
pub mod decimal;
pub mod domain;
pub mod external;
pub mod order;
pub mod profile;
pub mod store;
pub mod text;
pub mod worker;
pub mod workspace;

pub use domain::error::DomainError;
pub use domain::event::{replay, EventKind, WorkEvent, EVENT_SCHEMA_VERSION};
pub use domain::execution::{
    ChannelPolicy, ConfirmedOutcome, ContentDigest, ExecutionSpec, RuntimeKind, SecretRef,
    SecretSource, CONFIRMED_OUTCOME_SCHEMA_VERSION, EXECUTION_SPEC_SCHEMA_VERSION,
};
pub use domain::ids::{AttemptId, ExecutionId, ProjectId, WorkId};
pub use domain::outcome::{Outcome, OutcomeKind, OUTCOME_SCHEMA_VERSION};
pub use domain::relation::{RelationKind, WorkRelation};
pub use domain::status::WorkStatus;
pub use domain::work::{Apply, Work, WorkAttributes};
