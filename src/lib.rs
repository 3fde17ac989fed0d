//! Orchestration core of a container runtime: the ordered setup of a
//! container's first process (or of a process joining a running container),
//! and the error-aggregating rollback that follows a failed setup.
pub mod builder;
pub mod container;
pub mod decimal;
pub mod error;
pub mod laws;
pub mod messages;
pub mod runtime_spec;
pub mod sequence;
