//! The error taxonomy of a supervised attempt.  Every variant is fatal for
//! the attempt that raised it; individual probe-request failures are consumed
//! by the polling loop and never appear here.

use vstd::prelude::*;

verus! {

/// Why a supervised attempt failed.
#[derive(Clone, Copy, Debug, PartialEq, Eq, Structural)]
pub enum SupervisorError {
    /// Port allocation or filesystem access failed.
    IoFailure,
    /// No candidate static-asset directory holds an `index.html`.
    AssetsMissing,
    /// The backend executable was not found or the OS failed to start it.
    SpawnFailure,
    /// The child started but never reported ready within the deadline.
    HealthCheckTimedOut,
}

impl SupervisorError {
    /// A short description of the failure.
    pub fn message(&self) -> (r: &'static str)
        ensures
            *self == SupervisorError::IoFailure ==> r@ == "port allocation or filesystem access failed"@,
            *self == SupervisorError::AssetsMissing ==> r@ == "web assets missing in app resources"@,
            *self == SupervisorError::SpawnFailure ==> r@ == "failed to spawn the backend executable"@,
            *self == SupervisorError::HealthCheckTimedOut ==> r@ == "backend health check timed out"@,
    {
        match self {
            SupervisorError::IoFailure => "port allocation or filesystem access failed",
            SupervisorError::AssetsMissing => "web assets missing in app resources",
            SupervisorError::SpawnFailure => "failed to spawn the backend executable",
            SupervisorError::HealthCheckTimedOut => "backend health check timed out",
        }
    }
}

} // verus!
