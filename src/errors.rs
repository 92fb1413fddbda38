//! Error taxonomy, one enum per layer. Each error renders a message string.
use vstd::prelude::*;
use crate::entities::DomainError;

verus! {

/// Errors of the manifest loader.
#[derive(Debug, Clone, PartialEq, Eq)]
pub enum RepositoryError {
    NotFound(String),
    ParseError(String),
    IoError(String),
}

/// Errors of the process supervisor, each about one process.
#[derive(Debug, Clone, PartialEq, Eq)]
pub enum OrchestrationError {
    ProcessNotFound(String),
    AlreadyRunning(String),
    NotRunning(String),
    SpawnFailed(String),
    KillFailed(String),
}

/// Errors of a transport.
#[derive(Debug, Clone, PartialEq, Eq)]
pub enum CommunicationError {
    ConnectionFailed(String),
    SendFailed(String),
    ReceiveFailed(String),
    Timeout(String),
}

/// Errors of the use cases.
#[derive(Debug, Clone, PartialEq, Eq)]
pub enum UseCaseError {
    RepositoryError(String),
    OrchestrationError(String),
    CommunicationError(String),
    NoRouteFound(String),
    SerializationError(String),
    DeserializationError(String),
}

/// `prefix` followed by `detail`.
fn labelled(prefix: &str, detail: &String) -> (r: String)
    ensures
        r@ == prefix@ + detail@,
{
    String::from_str(prefix).concat(detail.as_str())
}

pub open spec fn domain_message(e: DomainError) -> Seq<char> {
    match e {
        DomainError::InvalidProcessId(m) => "Invalid process ID: "@ + m@,
        DomainError::InvalidExecutable(m) => "Invalid executable: "@ + m@,
        DomainError::InvalidRoute(m) => "Invalid route: "@ + m@,
        DomainError::InvalidPipeName(m) => "Invalid pipe name: "@ + m@,
    }
}

/// The message of a domain error.
pub fn domain_error_message(e: &DomainError) -> (r: String)
    ensures
        r@ == domain_message(*e),
{
    match e {
        DomainError::InvalidProcessId(m) => labelled("Invalid process ID: ", m),
        DomainError::InvalidExecutable(m) => labelled("Invalid executable: ", m),
        DomainError::InvalidRoute(m) => labelled("Invalid route: ", m),
        DomainError::InvalidPipeName(m) => labelled("Invalid pipe name: ", m),
    }
}

pub open spec fn repository_message(e: RepositoryError) -> Seq<char> {
    match e {
        RepositoryError::NotFound(m) => "Not found: "@ + m@,
        RepositoryError::ParseError(m) => "Parse error: "@ + m@,
        RepositoryError::IoError(m) => "IO error: "@ + m@,
    }
}

impl RepositoryError {
    pub fn message(&self) -> (r: String)
        ensures
            r@ == repository_message(*self),
    {
        match self {
            RepositoryError::NotFound(m) => labelled("Not found: ", m),
            RepositoryError::ParseError(m) => labelled("Parse error: ", m),
            RepositoryError::IoError(m) => labelled("IO error: ", m),
        }
    }
}

pub open spec fn orchestration_message(e: OrchestrationError) -> Seq<char> {
    match e {
        OrchestrationError::ProcessNotFound(m) => "Process not found: "@ + m@,
        OrchestrationError::AlreadyRunning(m) => "Already running: "@ + m@,
        OrchestrationError::NotRunning(m) => "Not running: "@ + m@,
        OrchestrationError::SpawnFailed(m) => "Spawn failed: "@ + m@,
        OrchestrationError::KillFailed(m) => "Kill failed: "@ + m@,
    }
}

impl OrchestrationError {
    pub fn message(&self) -> (r: String)
        ensures
            r@ == orchestration_message(*self),
    {
        match self {
            OrchestrationError::ProcessNotFound(m) => labelled("Process not found: ", m),
            OrchestrationError::AlreadyRunning(m) => labelled("Already running: ", m),
            OrchestrationError::NotRunning(m) => labelled("Not running: ", m),
            OrchestrationError::SpawnFailed(m) => labelled("Spawn failed: ", m),
            OrchestrationError::KillFailed(m) => labelled("Kill failed: ", m),
        }
    }
}

pub open spec fn communication_message(e: CommunicationError) -> Seq<char> {
    match e {
        CommunicationError::ConnectionFailed(m) => "Connection failed: "@ + m@,
        CommunicationError::SendFailed(m) => "Send failed: "@ + m@,
        CommunicationError::ReceiveFailed(m) => "Receive failed: "@ + m@,
        CommunicationError::Timeout(m) => "Timeout: "@ + m@,
    }
}

impl CommunicationError {
    pub fn message(&self) -> (r: String)
        ensures
            r@ == communication_message(*self),
    {
        match self {
            CommunicationError::ConnectionFailed(m) => labelled("Connection failed: ", m),
            CommunicationError::SendFailed(m) => labelled("Send failed: ", m),
            CommunicationError::ReceiveFailed(m) => labelled("Receive failed: ", m),
            CommunicationError::Timeout(m) => labelled("Timeout: ", m),
        }
    }
}

pub open spec fn use_case_message(e: UseCaseError) -> Seq<char> {
    match e {
        UseCaseError::RepositoryError(m) => "Repository error: "@ + m@,
        UseCaseError::OrchestrationError(m) => "Orchestration error: "@ + m@,
        UseCaseError::CommunicationError(m) => "Communication error: "@ + m@,
        UseCaseError::NoRouteFound(m) => "No route found for path: "@ + m@,
        UseCaseError::SerializationError(m) => "Serialization error: "@ + m@,
        UseCaseError::DeserializationError(m) => "Deserialization error: "@ + m@,
    }
}

impl UseCaseError {
    pub fn message(&self) -> (r: String)
        ensures
            r@ == use_case_message(*self),
    {
        match self {
            UseCaseError::RepositoryError(m) => labelled("Repository error: ", m),
            UseCaseError::OrchestrationError(m) => labelled("Orchestration error: ", m),
            UseCaseError::CommunicationError(m) => labelled("Communication error: ", m),
            UseCaseError::NoRouteFound(m) => labelled("No route found for path: ", m),
            UseCaseError::SerializationError(m) => labelled("Serialization error: ", m),
            UseCaseError::DeserializationError(m) => labelled("Deserialization error: ", m),
        }
    }

    /// The HTTP status the boundary answers with: 404 when no route matched,
    /// 500 when the request could not be serialized, 502 otherwise.
    pub fn status_code(&self) -> (r: u16)
        ensures
            r == (if *self is NoRouteFound {
                404u16
            } else if *self is SerializationError {
                500u16
            } else {
                502u16
            }),
    {
        match self {
            UseCaseError::NoRouteFound(_) => 404,
            UseCaseError::SerializationError(_) => 500,
            _ => 502,
        }
    }
}

} // verus!
