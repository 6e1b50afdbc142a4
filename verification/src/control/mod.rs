//! The control plane around the domain: errors, observation records, and
//! the decisions that each use case takes between its reads and writes.
pub mod error;
pub mod integrations;
pub mod ports;
pub mod queue;
pub mod service;
pub mod usecases;
