//! Running a Worker: its sandbox and policy, the command line it is
//! launched with, and the stub Worker used in tests and demonstrations.
pub mod command;
pub mod policy;
pub mod records;
pub mod runner;
pub mod stub;
pub mod supervise;
pub mod reclaim;
pub mod host;
