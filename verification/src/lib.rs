//! Verified core of a local backend-process supervisor.
//!
//! The library models the lifecycle of a supervised sidecar server: choosing a
//! loopback port, assembling the child's arguments and environment, deciding
//! the outcome of each health-check poll against a fixed deadline, and the
//! shared handle that guarantees teardown on shutdown or failure.  All I/O
//! (binding sockets, spawning processes, HTTP requests) is performed by the
//! surrounding application, which drives the state machines defined here.

pub mod assets;
pub mod environment;
pub mod errors;
pub mod health;
pub mod progress;
pub mod supervisor;
pub mod text;
pub mod urls;
