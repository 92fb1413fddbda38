use std::cell::Cell;

use base64::Engine;
use local_lambdas::config::{ProcessDto, XmlProcessRepository};
use local_lambdas::entities::{
    CommunicationMode, Executable, HttpMethod, HttpRequest, PipeName, Process, ProcessId, Route,
};
use local_lambdas::errors::{CommunicationError, OrchestrationError, RepositoryError, UseCaseError};
use local_lambdas::services::{PipeCommunicationService, ProcessOrchestrationService, ProcessRepository};
use local_lambdas::use_cases::{
    orchestration_outcome, record_outcome, repository_outcome, start_each, InitializeSystemUseCase,
    ProxyHttpRequestUseCase, StartAllProcessesUseCase, StopAllProcessesUseCase, Transport,
};

struct Recorder {
    calls: Cell<usize>,
    last_address: std::cell::RefCell<String>,
    reply: Vec<u8>,
}

impl Recorder {
    fn new(reply: &str) -> Self {
        Recorder { calls: Cell::new(0), last_address: std::cell::RefCell::new(String::new()), reply: reply.as_bytes().to_vec() }
    }
}

impl PipeCommunicationService for &Recorder {
    fn send_request(&self, pipe_name: &str, _request: Vec<u8>) -> Result<Vec<u8>, CommunicationError> {
        self.calls.set(self.calls.get() + 1);
        *self.last_address.borrow_mut() = pipe_name.to_string();
        Ok(self.reply.clone())
    }
}

struct Failing;

impl PipeCommunicationService for Failing {
    fn send_request(&self, _pipe_name: &str, _request: Vec<u8>) -> Result<Vec<u8>, CommunicationError> {
        Err(CommunicationError::ConnectionFailed("refused".to_string()))
    }
}

fn process(id: &str, route: &str, pipe: &str, mode: CommunicationMode) -> Process {
    Process {
        id: ProcessId::new(id).unwrap(),
        executable: Executable::new("./worker").unwrap(),
        arguments: vec![],
        route: Route::new(route).unwrap(),
        pipe_name: PipeName::new(pipe).unwrap(),
        working_directory: None,
        communication_mode: mode,
    }
}

fn request(method: HttpMethod, path: &str, body: &[u8]) -> HttpRequest {
    HttpRequest { method, path: path.to_string(), headers: vec![], body: body.to_vec() }
}

fn reply_with(body: &[u8]) -> String {
    format!(r#"{{"status":201,"body":"{}"}}"#, base64::engine::general_purpose::STANDARD.encode(body))
}

#[test]
fn end_to_end_routes_and_rejects() {
    let socket = Recorder::new(&reply_with(b"foo"));
    let http = Recorder::new("{}");
    let mut proxy = ProxyHttpRequestUseCase::new(
        &socket,
        &http,
        vec![process("api", "/api/*", "api_pipe", CommunicationMode::Pipe)],
    );
    let response = proxy.execute(request(HttpMethod::Get, "/api/foo", b"")).unwrap();
    assert_eq!(response.status_code, 201);
    assert_eq!(response.body, b"foo".to_vec());
    assert_eq!(socket.calls.get(), 1);
    assert_eq!(*socket.last_address.borrow(), "/tmp/api_pipe");

    let err = proxy.execute(request(HttpMethod::Get, "/other", b"")).unwrap_err();
    assert_eq!(err, UseCaseError::NoRouteFound("/other".to_string()));
    assert_eq!(err.status_code(), 404);
    assert_eq!(socket.calls.get(), 1);
    assert_eq!(http.calls.get(), 0);
}

#[test]
fn cache_serves_second_call_without_transport() {
    let socket = Recorder::new(&reply_with(b"first"));
    let http = Recorder::new("{}");
    let mut proxy = ProxyHttpRequestUseCase::new_with_cache(
        &socket,
        &http,
        vec![process("api", "/api/*", "api_pipe", CommunicationMode::Pipe)],
        Some(100),
    );
    let first = proxy.execute(request(HttpMethod::Post, "/api/x", b"one")).unwrap();
    let second = proxy.execute(request(HttpMethod::Post, "/api/x", b"two")).unwrap();
    assert_eq!(first.body, b"first".to_vec());
    assert_eq!(second.body, first.body);
    assert_eq!(second.status_code, first.status_code);
    assert_eq!(socket.calls.get(), 1);

    proxy.execute(request(HttpMethod::Get, "/api/x", b"")).unwrap();
    assert_eq!(socket.calls.get(), 2);
}

#[test]
fn without_cache_every_call_is_sent() {
    let socket = Recorder::new(&reply_with(b"r"));
    let http = Recorder::new("{}");
    let mut proxy = ProxyHttpRequestUseCase::new(
        &socket,
        &http,
        vec![process("api", "/api/*", "api_pipe", CommunicationMode::Pipe)],
    );
    proxy.execute(request(HttpMethod::Get, "/api/x", b"")).unwrap();
    proxy.execute(request(HttpMethod::Get, "/api/x", b"")).unwrap();
    assert_eq!(socket.calls.get(), 2);
}

#[test]
fn http_mode_uses_http_transport_and_port_address() {
    let socket = Recorder::new("{}");
    let http = Recorder::new(&reply_with(b"h"));
    let mut proxy = ProxyHttpRequestUseCase::new(
        &socket,
        &http,
        vec![process("web", "/web/", "web_ep", CommunicationMode::Http)],
    );
    let response = proxy.execute(request(HttpMethod::Get, "/web/a", b"")).unwrap();
    assert_eq!(response.body, b"h".to_vec());
    assert_eq!(socket.calls.get(), 0);
    assert_eq!(http.calls.get(), 1);
    assert_eq!(*http.last_address.borrow(), local_lambdas::address::get_http_address_from_name("web_ep"));
}

#[test]
fn transport_and_decode_failures() {
    let mut proxy = ProxyHttpRequestUseCase::new(
        Failing,
        Failing,
        vec![process("api", "/api/*", "api_pipe", CommunicationMode::Pipe)],
    );
    let err = proxy.execute(request(HttpMethod::Get, "/api/x", b"")).unwrap_err();
    assert_eq!(err, UseCaseError::CommunicationError("Connection failed: refused".to_string()));
    assert_eq!(err.status_code(), 502);

    let socket = Recorder::new("not json");
    let mut proxy = ProxyHttpRequestUseCase::new_with_cache(
        &socket,
        &socket,
        vec![process("api", "/api/*", "api_pipe", CommunicationMode::Pipe)],
        Some(10),
    );
    let err = proxy.execute(request(HttpMethod::Get, "/api/x", b"")).unwrap_err();
    assert!(matches!(err, UseCaseError::DeserializationError(_)));
    assert!(proxy.lookup(&request(HttpMethod::Get, "/api/x", b"")).is_none());
}

#[test]
fn cache_key_ignores_headers_and_body() {
    let mut r = request(HttpMethod::Delete, "/a/b", b"x");
    r.headers.push(("h".to_string(), "v".to_string()));
    assert_eq!(ProxyHttpRequestUseCase::<Failing, Failing>::generate_cache_key(&r), "DELETE:/a/b");
}

#[test]
fn dispatch_picks_first_match() {
    let proxy = ProxyHttpRequestUseCase::new(
        Failing,
        Failing,
        vec![
            process("one", "/x/*", "p1", CommunicationMode::Pipe),
            process("two", "/x/y", "p2", CommunicationMode::Http),
        ],
    );
    let d = proxy.dispatch(&request(HttpMethod::Get, "/x/y", b"")).unwrap();
    assert_eq!(d.mode, CommunicationMode::Pipe);
    assert_eq!(d.address, "/tmp/p1");
    assert_eq!(proxy.find_matching_process("/x/y"), Some(0));
    assert_eq!(proxy.find_matching_process("/z"), None);
}

struct FixedRepository(Result<Vec<Process>, RepositoryError>);

impl ProcessRepository for FixedRepository {
    fn load_all(&self) -> Result<Vec<Process>, RepositoryError> {
        match &self.0 {
            Ok(v) => Ok(v.clone()),
            Err(e) => Err(e.clone()),
        }
    }
}

#[test]
fn initialize_maps_repository_errors() {
    let ok = InitializeSystemUseCase::new(FixedRepository(Ok(vec![process("a", "/", "p", CommunicationMode::Pipe)])));
    assert_eq!(ok.execute().unwrap().len(), 1);
    let bad = InitializeSystemUseCase::new(FixedRepository(Err(RepositoryError::IoError("gone".to_string()))));
    assert_eq!(bad.execute().unwrap_err(), UseCaseError::RepositoryError("IO error: gone".to_string()));
    assert_eq!(
        repository_outcome(Err(RepositoryError::NotFound("m".to_string()))),
        Err(UseCaseError::RepositoryError("Not found: m".to_string()))
    );
}

struct CountingOrchestrator {
    started: usize,
    stopped: usize,
    fail: bool,
}

impl ProcessOrchestrationService for CountingOrchestrator {
    fn start_process(&mut self, _id: &ProcessId) -> Result<(), OrchestrationError> {
        Ok(())
    }
    fn stop_process(&mut self, _id: &ProcessId) -> Result<(), OrchestrationError> {
        Ok(())
    }
    fn is_running(&self, _id: &ProcessId) -> bool {
        false
    }
    fn start_all(&mut self) -> Result<(), OrchestrationError> {
        self.started += 1;
        if self.fail { Err(OrchestrationError::SpawnFailed("x".to_string())) } else { Ok(()) }
    }
    fn stop_all(&mut self) -> Result<(), OrchestrationError> {
        self.stopped += 1;
        Ok(())
    }
}

#[test]
fn bulk_use_cases_map_errors() {
    let mut start = StartAllProcessesUseCase::new(CountingOrchestrator { started: 0, stopped: 0, fail: false });
    assert!(start.execute().is_ok());
    let mut stop = StopAllProcessesUseCase::new(CountingOrchestrator { started: 0, stopped: 0, fail: false });
    assert!(stop.execute().is_ok());
    let mut failing = StartAllProcessesUseCase::new(CountingOrchestrator { started: 0, stopped: 0, fail: true });
    assert_eq!(
        failing.execute().unwrap_err(),
        UseCaseError::OrchestrationError("Spawn failed: x".to_string())
    );
    assert_eq!(orchestration_outcome(Ok(())), Ok(()));
}

#[test]
fn use_case_error_messages() {
    assert_eq!(UseCaseError::NoRouteFound("/p".to_string()).message(), "No route found for path: /p");
    assert_eq!(UseCaseError::SerializationError("s".to_string()).message(), "Serialization error: s");
    assert_eq!(UseCaseError::DeserializationError("d".to_string()).status_code(), 502);
    assert_eq!(UseCaseError::SerializationError("s".to_string()).status_code(), 500);
    assert_eq!(CommunicationError::Timeout("t".to_string()).message(), "Timeout: t");
    assert_eq!(CommunicationError::ReceiveFailed("r".to_string()).message(), "Receive failed: r");
    assert_eq!(OrchestrationError::NotRunning("n".to_string()).message(), "Not running: n");
    assert_eq!(RepositoryError::ParseError("p".to_string()).message(), "Parse error: p");
}

fn dto(id: &str, exe: &str, route: &str, pipe: &str, mode: Option<&str>) -> ProcessDto {
    ProcessDto {
        id: id.to_string(),
        executable: exe.to_string(),
        args: vec!["--port".to_string(), "8080".to_string()],
        route: route.to_string(),
        pipe_name: pipe.to_string(),
        working_dir: Some("./w".to_string()),
        communication_mode: mode.map(|m| m.to_string()),
    }
}

#[test]
fn records_validate_into_processes() {
    let repo = XmlProcessRepository::new("manifest.xml");
    assert_eq!(repo.manifest_path(), "manifest.xml");
    let processes = repo
        .processes_from_records(vec![
            dto("a", "./a", "/a/*", "pa", None),
            dto("b", "./b", "/b/", "pb", Some("http")),
            dto("c", "./c", "/c", "pc", Some("pipe")),
        ])
        .unwrap();
    assert_eq!(processes.len(), 3);
    assert_eq!(processes[0].id.as_str(), "a");
    assert_eq!(processes[0].arguments, vec!["--port".to_string(), "8080".to_string()]);
    assert_eq!(processes[0].working_directory.as_ref().unwrap().as_str(), "./w");
    assert_eq!(processes[0].communication_mode, CommunicationMode::Pipe);
    assert_eq!(processes[1].communication_mode, CommunicationMode::Http);
    assert_eq!(processes[2].communication_mode, CommunicationMode::Pipe);
}

#[test]
fn invalid_records_fail_with_first_error() {
    let repo = XmlProcessRepository::new("m.xml");
    let err = repo
        .processes_from_records(vec![
            dto("a", "./a", "/a", "pa", None),
            dto("b", "./b", "b", "pb", None),
            dto("", "./c", "/c", "pc", None),
        ])
        .unwrap_err();
    assert_eq!(err, RepositoryError::ParseError("Invalid route: Route must start with /".to_string()));
    assert_eq!(
        dto("x", "./x", "/x", "px", Some("grpc")).into_domain().unwrap_err(),
        "Invalid communication mode: grpc. Must be 'pipe' or 'http'"
    );
    assert_eq!(
        dto("", "./x", "/x", "px", None).into_domain().unwrap_err(),
        "Invalid process ID: Process ID cannot be empty"
    );
    assert_eq!(
        dto("x", "", "/x", "px", None).into_domain().unwrap_err(),
        "Invalid executable: Executable path cannot be empty"
    );
    assert_eq!(
        dto("x", "./x", "/x", "", None).into_domain().unwrap_err(),
        "Invalid pipe name: Pipe name cannot be empty"
    );
}

struct PickyOrchestrator {
    attempts: Vec<String>,
}

impl ProcessOrchestrationService for PickyOrchestrator {
    fn start_process(&mut self, id: &ProcessId) -> Result<(), OrchestrationError> {
        self.attempts.push(id.as_str().to_string());
        if id.as_str() == "bad" {
            Err(OrchestrationError::SpawnFailed("no binary".to_string()))
        } else {
            Ok(())
        }
    }
    fn stop_process(&mut self, id: &ProcessId) -> Result<(), OrchestrationError> {
        self.attempts.push(id.as_str().to_string());
        Err(OrchestrationError::KillFailed(id.as_str().to_string()))
    }
    fn is_running(&self, _id: &ProcessId) -> bool {
        false
    }
    fn start_all(&mut self) -> Result<(), OrchestrationError> {
        Ok(())
    }
    fn stop_all(&mut self) -> Result<(), OrchestrationError> {
        Ok(())
    }
}

#[test]
fn bulk_start_is_best_effort() {
    let ids: Vec<ProcessId> = ["a", "bad", "c"].iter().map(|s| ProcessId::new(s).unwrap()).collect();
    let mut o = PickyOrchestrator { attempts: vec![] };
    let failures = start_each(&mut o, &ids);
    assert_eq!(o.attempts, vec!["a", "bad", "c"]);
    assert_eq!(failures.len(), 1);
    assert_eq!(failures[0].0.as_str(), "bad");
    assert_eq!(failures[0].1, OrchestrationError::SpawnFailed("no binary".to_string()));
}

#[test]
fn record_outcome_appends_failures_only() {
    let id = ProcessId::new("x").unwrap();
    let mut failures = Vec::new();
    record_outcome(&mut failures, &id, Ok(()));
    assert!(failures.is_empty());
    record_outcome(&mut failures, &id, Err(OrchestrationError::SpawnFailed("e".to_string())));
    assert_eq!(failures.len(), 1);
    assert_eq!(failures[0].0.as_str(), "x");
}

#[test]
fn serve_returns_cached_answer_without_transport() {
    let socket = Recorder::new(&reply_with(b"fresh"));
    let mut proxy = ProxyHttpRequestUseCase::new(
        &socket,
        &socket,
        vec![process("api", "/api/*", "api_pipe", CommunicationMode::Pipe)],
    );
    let cached = local_lambdas::entities::HttpResponse { status_code: 299, headers: vec![], body: b"old".to_vec() };
    let r = proxy.serve(request(HttpMethod::Get, "/nowhere", b""), Some(cached)).unwrap();
    assert_eq!(r.status_code, 299);
    assert_eq!(r.body, b"old".to_vec());
    assert_eq!(socket.calls.get(), 0);
}

#[test]
fn finish_maps_transport_failure() {
    let mut proxy = ProxyHttpRequestUseCase::new(Failing, Failing, vec![]);
    let r = proxy.finish(
        &request(HttpMethod::Get, "/a", b""),
        Err(CommunicationError::SendFailed("HTTP request failed with status: 500".to_string())),
    );
    assert_eq!(
        r.unwrap_err(),
        UseCaseError::CommunicationError("Send failed: HTTP request failed with status: 500".to_string())
    );
}

#[test]
fn transport_selected_by_mode() {
    let proxy = ProxyHttpRequestUseCase::new(Failing, Failing, vec![]);
    assert!(matches!(proxy.transport_for(CommunicationMode::Pipe), Transport::Socket(_)));
    assert!(matches!(proxy.transport_for(CommunicationMode::Http), Transport::Loopback(_)));
}
