//! The services the core is driven through. Adapters outside the library
//! implement them: a manifest loader, process lifecycle control, and the
//! transports.
use vstd::prelude::*;
use crate::entities::{Process, ProcessId};
use crate::errors::{CommunicationError, OrchestrationError, RepositoryError};

verus! {

/// A source of process definitions.
pub trait ProcessRepository {
    /// Loads every process definition.
    fn load_all(&self) -> Result<Vec<Process>, RepositoryError>;
}

/// Lifecycle control of the registered processes.
pub trait ProcessOrchestrationService {
    /// Starts a registered process.
    fn start_process(&mut self, id: &ProcessId) -> Result<(), OrchestrationError>;

    /// Stops a process; stopping one that does not run is not an error.
    fn stop_process(&mut self, id: &ProcessId) -> Result<(), OrchestrationError>;

    /// Whether a process is registered and runs.
    fn is_running(&self, id: &ProcessId) -> bool;

    /// Starts every registered process, best effort.
    fn start_all(&mut self) -> Result<(), OrchestrationError>;

    /// Stops every registered process, best effort.
    fn stop_all(&mut self) -> Result<(), OrchestrationError>;
}

/// A transport: sends one opaque request to an address and returns the one
/// opaque response.
pub trait PipeCommunicationService {
    fn send_request(&self, pipe_name: &str, request: Vec<u8>) -> Result<Vec<u8>, CommunicationError>;
}

} // verus!
