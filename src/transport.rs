//! The two transports' decisions. The socket transport opens one connection
//! per request, writes the request, closes its writing side and reads until
//! the peer closes; the loopback-HTTP transport posts the request with a
//! fixed timeout and accepts only a 2xx answer. The I/O itself happens
//! outside the library.
use vstd::prelude::*;
use crate::errors::CommunicationError;
use crate::text::is_prefix_of;

verus! {

/// Seconds the loopback-HTTP transport waits for an answer.
pub const HTTP_TIMEOUT_SECS: u64 = 30;

/// The URL an address is posted to: the address itself when it already is
/// an `http://` or `https://` URL, else `http://` followed by it.
pub open spec fn target_url(address: Seq<char>) -> Seq<char> {
    if "http://"@.is_prefix_of(address) || "https://"@.is_prefix_of(address) {
        address
    } else {
        "http://"@ + address
    }
}

/// A status in the success class, 200 to 299.
pub open spec fn is_success(status: u16) -> bool {
    200 <= status < 300
}

/// The loopback-HTTP transport.
#[derive(Debug, Clone, Copy)]
pub struct HttpClient;

impl HttpClient {
    pub fn new() -> (r: Self) {
        HttpClient
    }

    /// The URL for an address.
    pub fn target_url(&self, address: &str) -> (r: String)
        ensures
            r@ == target_url(address@),
    {
        if is_prefix_of("http://", address) || is_prefix_of("https://", address) {
            String::from_str(address)
        } else {
            String::from_str("http://").concat(address)
        }
    }

    /// The outcome of an answer's status: a status outside 2xx fails the send
    /// with the status's text in the message.
    pub fn status_outcome(&self, status: u16, status_text: &str) -> (r: Result<(), CommunicationError>)
        ensures
            is_success(status) ==> r is Ok,
            !is_success(status) ==> (r matches Err(CommunicationError::SendFailed(m))
                && m@ == "HTTP request failed with status: "@ + status_text@),
    {
        if 200 <= status && status < 300 {
            Ok(())
        } else {
            Err(CommunicationError::SendFailed(String::from_str("HTTP request failed with status: ").concat(status_text)))
        }
    }
}

/// The local-socket transport.
#[derive(Debug, Clone, Copy)]
pub struct NamedPipeClient;

impl NamedPipeClient {
    pub fn new() -> (r: Self) {
        NamedPipeClient
    }
}

impl Default for NamedPipeClient {
    fn default() -> (r: Self) {
        NamedPipeClient
    }
}

} // verus!
