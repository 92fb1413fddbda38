//! Local-socket endpoints: where a worker listens and where the proxy
//! connects. Reading and writing the socket happen outside the library.
use vstd::prelude::*;
use crate::address::{get_pipe_address_from_name, pipe_address};

verus! {

/// The listening side of a local socket, named by its endpoint name.
#[derive(Debug)]
pub struct PipeServer {
    pipe_name: String,
    path: String,
}

impl PipeServer {
    pub closed spec fn name(&self) -> Seq<char> {
        self.pipe_name@
    }

    pub closed spec fn address(&self) -> Seq<char> {
        self.path@
    }

    /// A server for an endpoint name; it listens at the name's socket path.
    pub fn new(pipe_name: &str) -> (r: Self)
        ensures
            r.name() == pipe_name@,
            r.address() == pipe_address(pipe_name@),
    {
        PipeServer { pipe_name: String::from_str(pipe_name), path: get_pipe_address_from_name(pipe_name) }
    }

    /// The address clients connect to.
    pub fn get_pipe_address(&self) -> (r: String)
        ensures
            r@ == self.address(),
    {
        self.path.clone()
    }

    pub fn pipe_name(&self) -> (r: &str)
        ensures
            r@ == self.name(),
    {
        self.pipe_name.as_str()
    }
}

/// The connecting side of a local socket.
#[derive(Debug)]
pub struct PipeClient {
    pipe_address: String,
}

impl PipeClient {
    pub closed spec fn address(&self) -> Seq<char> {
        self.pipe_address@
    }

    pub fn new(pipe_address: &str) -> (r: Self)
        ensures
            r.address() == pipe_address@,
    {
        PipeClient { pipe_address: String::from_str(pipe_address) }
    }

    pub fn pipe_address(&self) -> (r: &str)
        ensures
            r@ == self.address(),
    {
        self.pipe_address.as_str()
    }
}

} // verus!
