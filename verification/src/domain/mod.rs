//! Domain: identifiers, the Work state machine, closed outcomes, events.
pub mod error;
pub mod event;
pub mod execution;
pub mod ids;
pub mod outcome;
pub mod relation;
pub mod work;
pub mod status;
