use local_lambdas::entities::{
    CommunicationMode, DomainError, Executable, HttpMethod, PipeName, ProcessId, Route,
    WorkingDirectory,
};
use local_lambdas::errors::domain_error_message;

#[test]
fn test_process_id_validation() {
    assert!(ProcessId::new("valid-id").is_ok());
    assert!(ProcessId::new("").is_err());
}

#[test]
fn test_route_matching() {
    let route = Route::new("/api/*").unwrap();
    assert!(route.matches("/api/test"));
    assert!(route.matches("/api/foo/bar"));
    assert!(!route.matches("/other/path"));
}

#[test]
fn test_executable_validation() {
    assert!(Executable::new("/bin/test").is_ok());
    assert!(Executable::new("").is_err());
}

#[test]
fn route_requires_leading_slash() {
    assert!(Route::new("/").is_ok());
    assert_eq!(
        Route::new("api/*"),
        Err(DomainError::InvalidRoute("Route must start with /".to_string()))
    );
    assert!(Route::new("").is_err());
}

#[test]
fn pipe_name_validation() {
    assert_eq!(PipeName::new("p").unwrap().as_str(), "p");
    assert_eq!(
        PipeName::new(""),
        Err(DomainError::InvalidPipeName("Pipe name cannot be empty".to_string()))
    );
}

#[test]
fn value_objects_keep_their_text() {
    assert_eq!(ProcessId::new("svc").unwrap().as_str(), "svc");
    assert_eq!(Executable::new("./bin/x").unwrap().as_str(), "./bin/x");
    assert_eq!(Route::new("/api/").unwrap().as_str(), "/api/");
    assert_eq!(WorkingDirectory::new("").as_str(), "");
    assert_eq!(
        ProcessId::new(""),
        Err(DomainError::InvalidProcessId("Process ID cannot be empty".to_string()))
    );
    assert_eq!(
        Executable::new(""),
        Err(DomainError::InvalidExecutable("Executable path cannot be empty".to_string()))
    );
}

#[test]
fn wildcard_strips_two_characters() {
    let route = Route::new("/api/*").unwrap();
    assert!(route.matches("/api/"));
    assert!(route.matches("/api"));
    assert!(route.matches("/apiary"));
    assert!(route.matches("/api/*"));
    assert!(!route.matches("/ap"));
}

#[test]
fn exact_and_prefix_routes() {
    let exact = Route::new("/health").unwrap();
    assert!(exact.matches("/health"));
    assert!(!exact.matches("/health/"));
    assert!(!exact.matches("/healthz"));
    let prefix = Route::new("/static/").unwrap();
    assert!(prefix.matches("/static/"));
    assert!(prefix.matches("/static/a.css"));
    assert!(!prefix.matches("/static"));
    let star_only = Route::new("/api*").unwrap();
    assert!(!star_only.matches("/api/x"));
    assert!(star_only.matches("/api*"));
}

#[test]
fn method_names() {
    assert_eq!(HttpMethod::Get.as_str(), "GET");
    assert_eq!(HttpMethod::Post.as_str(), "POST");
    assert_eq!(HttpMethod::Put.as_str(), "PUT");
    assert_eq!(HttpMethod::Delete.as_str(), "DELETE");
    assert_eq!(HttpMethod::Patch.as_str(), "PATCH");
    assert_eq!(HttpMethod::Head.as_str(), "HEAD");
    assert_eq!(HttpMethod::Options.as_str(), "OPTIONS");
}

#[test]
fn default_mode_is_pipe() {
    assert_eq!(CommunicationMode::default(), CommunicationMode::Pipe);
}

#[test]
fn domain_error_messages() {
    let e = ProcessId::new("").unwrap_err();
    assert_eq!(domain_error_message(&e), "Invalid process ID: Process ID cannot be empty");
    let e = Route::new("x").unwrap_err();
    assert_eq!(domain_error_message(&e), "Invalid route: Route must start with /");
}
