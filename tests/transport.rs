use local_lambdas::errors::CommunicationError;
use local_lambdas::pipes::{PipeClient, PipeServer};
use local_lambdas::transport::{HttpClient, NamedPipeClient, HTTP_TIMEOUT_SECS};

#[test]
fn http_target_url() {
    let c = HttpClient::new();
    assert_eq!(c.target_url("127.0.0.1:9001"), "http://127.0.0.1:9001");
    assert_eq!(c.target_url("http://h:1/x"), "http://h:1/x");
    assert_eq!(c.target_url("https://h"), "https://h");
    assert_eq!(HTTP_TIMEOUT_SECS, 30);
}

#[test]
fn http_status_outcome() {
    let c = HttpClient::new();
    assert_eq!(c.status_outcome(200, "200 OK"), Ok(()));
    assert_eq!(c.status_outcome(299, "299"), Ok(()));
    assert_eq!(
        c.status_outcome(404, "404 Not Found"),
        Err(CommunicationError::SendFailed("HTTP request failed with status: 404 Not Found".to_string()))
    );
    assert!(c.status_outcome(199, "199").is_err());
    assert!(c.status_outcome(300, "300").is_err());
}

#[test]
fn pipe_endpoints() {
    let server = PipeServer::new("worker");
    assert_eq!(server.get_pipe_address(), "/tmp/worker");
    assert_eq!(server.pipe_name(), "worker");
    let client = PipeClient::new("/tmp/worker");
    assert_eq!(client.pipe_address(), "/tmp/worker");
    let _ = NamedPipeClient::new();
    let _ = NamedPipeClient::default();
}
