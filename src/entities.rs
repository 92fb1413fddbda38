//! Domain entities: validated value objects and the plain records that flow
//! through the proxy.
use vstd::prelude::*;
use crate::text::{is_prefix_of, str_eq};

verus! {

/// Does a request path match a route pattern: exact equality; a pattern
/// ending in `/*` matches every path that starts with the pattern minus those
/// two characters; a pattern ending in `/` matches every path that starts
/// with it; nothing else matches.
pub open spec fn route_matches(pattern: Seq<char>, path: Seq<char>) -> bool {
    if pattern == path {
        true
    } else if is_wildcard_pattern(pattern) {
        pattern.subrange(0, pattern.len() - 2).is_prefix_of(path)
    } else if pattern.len() > 0 && pattern.last() == '/' {
        pattern.is_prefix_of(path)
    } else {
        false
    }
}

/// The matching rules: a pattern ending in `/*` matches exactly the path
/// equal to it and the paths that start with it minus those two characters,
/// so every path that starts with it minus the `*` alone; a pattern ending
/// in `/` matches exactly the paths that start with it; any other pattern
/// matches only the identical path.
pub proof fn lemma_route_matching_rules(pattern: Seq<char>, path: Seq<char>)
    ensures
        is_wildcard_pattern(pattern) ==> (route_matches(pattern, path) <==> (pattern == path
            || pattern.subrange(0, pattern.len() - 2).is_prefix_of(path))),
        is_wildcard_pattern(pattern) && pattern.subrange(0, pattern.len() - 1).is_prefix_of(path)
            ==> route_matches(pattern, path),
        pattern.len() > 0 && pattern.last() == '/' ==> (route_matches(pattern, path)
            <==> pattern.is_prefix_of(path)),
        !is_wildcard_pattern(pattern) && !(pattern.len() > 0 && pattern.last() == '/') ==> (
        route_matches(pattern, path) <==> pattern == path),
{
    if is_wildcard_pattern(pattern) && pattern.subrange(0, pattern.len() - 1).is_prefix_of(path) {
        let short = pattern.subrange(0, pattern.len() - 2);
        assert forall|i: int| 0 <= i < short.len() implies short[i] == path[i] by {
            assert(short[i] == pattern.subrange(0, pattern.len() - 1)[i]);
        }
    }
    if pattern.len() > 0 && pattern.last() == '/' && pattern == path {
        assert(pattern.is_prefix_of(path));
    }
}

/// A pattern that ends in `/*`.
pub open spec fn is_wildcard_pattern(pattern: Seq<char>) -> bool {
    pattern.len() >= 2 && pattern[pattern.len() - 2] == '/' && pattern.last() == '*'
}

/// A route pattern is well formed when it is non-empty and starts with `/`.
pub open spec fn valid_route(pattern: Seq<char>) -> bool {
    pattern.len() > 0 && pattern[0] == '/'
}

/// Errors raised when a value object is built from invalid input.
#[derive(Debug, Clone, PartialEq, Eq)]
pub enum DomainError {
    InvalidProcessId(String),
    InvalidExecutable(String),
    InvalidRoute(String),
    InvalidPipeName(String),
}

/// Identifier of a process: a non-empty string.
#[derive(Debug, PartialEq, Eq, Hash)]
pub struct ProcessId(String);

impl Clone for ProcessId {
    fn clone(&self) -> (r: Self)
        ensures
            r == *self,
    {
        proof {
            use_type_invariant(self);
        }
        ProcessId(self.0.clone())
    }
}

impl View for ProcessId {
    type V = Seq<char>;

    closed spec fn view(&self) -> Seq<char> {
        self.0@
    }
}

impl ProcessId {
    #[verifier::type_invariant]
    spec fn inv(&self) -> bool {
        self.0@.len() > 0
    }

    /// Validates a process identifier; the empty string is rejected.
    pub fn new(id: &str) -> (r: Result<Self, DomainError>)
        ensures
            r is Ok <==> id@.len() > 0,
            r matches Ok(p) ==> p@ == id@,
            r matches Err(e) ==> e is InvalidProcessId,
            r matches Err(DomainError::InvalidProcessId(m)) ==> m@ == "Process ID cannot be empty"@,
    {
        if id.unicode_len() == 0 {
            return Err(DomainError::InvalidProcessId(String::from_str("Process ID cannot be empty")));
        }
        Ok(ProcessId(String::from_str(id)))
    }

    pub fn as_str(&self) -> (r: &str)
        ensures
            r@ == self@,
            r@.len() > 0,
    {
        proof {
            use_type_invariant(self);
        }
        self.0.as_str()
    }

}

/// Path of an executable: a non-empty string.
#[derive(Debug, PartialEq, Eq)]
pub struct Executable(String);

impl Clone for Executable {
    fn clone(&self) -> (r: Self)
        ensures
            r == *self,
    {
        proof {
            use_type_invariant(self);
        }
        Executable(self.0.clone())
    }
}

impl View for Executable {
    type V = Seq<char>;

    closed spec fn view(&self) -> Seq<char> {
        self.0@
    }
}

impl Executable {
    #[verifier::type_invariant]
    spec fn inv(&self) -> bool {
        self.0@.len() > 0
    }

    /// Validates an executable path; the empty string is rejected.
    pub fn new(path: &str) -> (r: Result<Self, DomainError>)
        ensures
            r is Ok <==> path@.len() > 0,
            r matches Ok(p) ==> p@ == path@,
            r matches Err(e) ==> e is InvalidExecutable,
            r matches Err(DomainError::InvalidExecutable(m)) ==> m@ == "Executable path cannot be empty"@,
    {
        if path.unicode_len() == 0 {
            return Err(DomainError::InvalidExecutable(String::from_str("Executable path cannot be empty")));
        }
        Ok(Executable(String::from_str(path)))
    }

    pub fn as_str(&self) -> (r: &str)
        ensures
            r@ == self@,
            r@.len() > 0,
    {
        proof {
            use_type_invariant(self);
        }
        self.0.as_str()
    }
}

/// A route pattern: non-empty and starting with `/`.
#[derive(Debug, PartialEq, Eq)]
pub struct Route(String);

impl Clone for Route {
    fn clone(&self) -> (r: Self)
        ensures
            r == *self,
    {
        proof {
            use_type_invariant(self);
        }
        Route(self.0.clone())
    }
}

impl View for Route {
    type V = Seq<char>;

    closed spec fn view(&self) -> Seq<char> {
        self.0@
    }
}

impl Route {
    #[verifier::type_invariant]
    spec fn inv(&self) -> bool {
        valid_route(self.0@)
    }

    /// Validates a route pattern; it must start with `/`.
    pub fn new(pattern: &str) -> (r: Result<Self, DomainError>)
        ensures
            r is Ok <==> valid_route(pattern@),
            r matches Ok(p) ==> p@ == pattern@,
            r matches Err(e) ==> e is InvalidRoute,
            r matches Err(DomainError::InvalidRoute(m)) ==> m@ == "Route must start with /"@,
    {
        if pattern.unicode_len() == 0 || pattern.get_char(0) != '/' {
            return Err(DomainError::InvalidRoute(String::from_str("Route must start with /")));
        }
        Ok(Route(String::from_str(pattern)))
    }

    pub fn as_str(&self) -> (r: &str)
        ensures
            r@ == self@,
            valid_route(r@),
    {
        proof {
            use_type_invariant(self);
        }
        self.0.as_str()
    }

    /// Does a request path match this pattern.
    pub fn matches(&self, path: &str) -> (r: bool)
        ensures
            r == route_matches(self@, path@),
    {
        matches_pattern(path, self.0.as_str())
    }
}

/// Does `path` match `pattern` (see `route_matches`).
pub fn matches_pattern(path: &str, pattern: &str) -> (r: bool)
    ensures
        r == route_matches(pattern@, path@),
{
    if str_eq(pattern, path) {
        return true;
    }
    let n = pattern.unicode_len();
    if n >= 2 && pattern.get_char(n - 2) == '/' && pattern.get_char(n - 1) == '*' {
        let prefix = pattern.substring_char(0, n - 2);
        return is_prefix_of(prefix, path);
    }
    if n > 0 && pattern.get_char(n - 1) == '/' {
        return is_prefix_of(pattern, path);
    }
    false
}

/// Name of a communication endpoint: a non-empty string.
#[derive(Debug, PartialEq, Eq)]
pub struct PipeName(String);

impl Clone for PipeName {
    fn clone(&self) -> (r: Self)
        ensures
            r == *self,
    {
        proof {
            use_type_invariant(self);
        }
        PipeName(self.0.clone())
    }
}

impl View for PipeName {
    type V = Seq<char>;

    closed spec fn view(&self) -> Seq<char> {
        self.0@
    }
}

impl PipeName {
    #[verifier::type_invariant]
    spec fn inv(&self) -> bool {
        self.0@.len() > 0
    }

    /// Validates an endpoint name; the empty string is rejected.
    pub fn new(name: &str) -> (r: Result<Self, DomainError>)
        ensures
            r is Ok <==> name@.len() > 0,
            r matches Ok(p) ==> p@ == name@,
            r matches Err(e) ==> e is InvalidPipeName,
            r matches Err(DomainError::InvalidPipeName(m)) ==> m@ == "Pipe name cannot be empty"@,
    {
        if name.unicode_len() == 0 {
            return Err(DomainError::InvalidPipeName(String::from_str("Pipe name cannot be empty")));
        }
        Ok(PipeName(String::from_str(name)))
    }

    pub fn as_str(&self) -> (r: &str)
        ensures
            r@ == self@,
            r@.len() > 0,
    {
        proof {
            use_type_invariant(self);
        }
        self.0.as_str()
    }
}

/// Working directory of a process; any string is accepted.
#[derive(Debug, PartialEq, Eq)]
pub struct WorkingDirectory(String);

impl Clone for WorkingDirectory {
    fn clone(&self) -> (r: Self)
        ensures
            r == *self,
    {
        WorkingDirectory(self.0.clone())
    }
}

impl View for WorkingDirectory {
    type V = Seq<char>;

    closed spec fn view(&self) -> Seq<char> {
        self.0@
    }
}

impl WorkingDirectory {
    pub fn new(path: &str) -> (r: Self)
        ensures
            r@ == path@,
    {
        WorkingDirectory(String::from_str(path))
    }

    pub fn as_str(&self) -> (r: &str)
        ensures
            r@ == self@,
    {
        self.0.as_str()
    }
}

/// How the proxy talks to a process.
#[derive(Debug, Clone, Copy, PartialEq, Eq, Structural)]
pub enum CommunicationMode {
    /// A local socket (a Unix domain socket or a Windows named pipe).
    Pipe,
    /// HTTP on the loopback interface.
    Http,
}

impl Default for CommunicationMode {
    fn default() -> (r: Self)
        ensures
            r == CommunicationMode::Pipe,
    {
        CommunicationMode::Pipe
    }
}

/// A configured process, built once from the manifest.
#[derive(Debug, PartialEq, Eq)]
pub struct Process {
    pub id: ProcessId,
    pub executable: Executable,
    pub arguments: Vec<String>,
    pub route: Route,
    pub pipe_name: PipeName,
    pub working_directory: Option<WorkingDirectory>,
    pub communication_mode: CommunicationMode,
}

/// A copy of a list of strings, equal to the given one.
pub fn clone_strings(v: &Vec<String>) -> (r: Vec<String>)
    ensures
        r@ == v@,
{
    let r = v.clone();
    assert(r@ =~= v@);
    r
}

impl Process {
    /// Two process records that hold the same values.
    pub open spec fn same_as(&self, other: &Process) -> bool {
        &&& self.id == other.id
        &&& self.executable == other.executable
        &&& self.arguments@ == other.arguments@
        &&& self.route == other.route
        &&& self.pipe_name == other.pipe_name
        &&& self.working_directory == other.working_directory
        &&& self.communication_mode == other.communication_mode
    }
}

impl Clone for Process {
    fn clone(&self) -> (r: Self)
        ensures
            r.same_as(self),
    {
        let working_directory = match &self.working_directory {
            Some(w) => Some(w.clone()),
            None => None,
        };
        Process {
            id: self.id.clone(),
            executable: self.executable.clone(),
            arguments: clone_strings(&self.arguments),
            route: self.route.clone(),
            pipe_name: self.pipe_name.clone(),
            working_directory,
            communication_mode: self.communication_mode,
        }
    }
}

/// HTTP request method.
#[derive(Debug, Clone, Copy, PartialEq, Eq, Structural)]
pub enum HttpMethod {
    Get,
    Post,
    Put,
    Delete,
    Patch,
    Head,
    Options,
}

/// The upper-case name of a method, as it appears on the wire.
pub open spec fn method_name(m: HttpMethod) -> Seq<char> {
    match m {
        HttpMethod::Get => "GET"@,
        HttpMethod::Post => "POST"@,
        HttpMethod::Put => "PUT"@,
        HttpMethod::Delete => "DELETE"@,
        HttpMethod::Patch => "PATCH"@,
        HttpMethod::Head => "HEAD"@,
        HttpMethod::Options => "OPTIONS"@,
    }
}

impl HttpMethod {
    pub fn as_str(&self) -> (r: &'static str)
        ensures
            r@ == method_name(*self),
    {
        match self {
            HttpMethod::Get => "GET",
            HttpMethod::Post => "POST",
            HttpMethod::Put => "PUT",
            HttpMethod::Delete => "DELETE",
            HttpMethod::Patch => "PATCH",
            HttpMethod::Head => "HEAD",
            HttpMethod::Options => "OPTIONS",
        }
    }
}

/// The view of a list of header pairs.
pub open spec fn pairs_view(h: Seq<(String, String)>) -> Seq<(Seq<char>, Seq<char>)> {
    h.map_values(|p: (String, String)| (p.0@, p.1@))
}

/// A copy of a list of header pairs, equal to the given one.
pub fn clone_pairs(h: &Vec<(String, String)>) -> (r: Vec<(String, String)>)
    ensures
        r@ == h@,
{
    let mut r: Vec<(String, String)> = Vec::new();
    let mut i: usize = 0;
    while i < h.len()
        invariant
            i <= h@.len(),
            r@ == h@.subrange(0, i as int),
        decreases h@.len() - i,
    {
        let (k, v) = &h[i];
        r.push((k.clone(), v.clone()));
        i = i + 1;
        assert(r@ =~= h@.subrange(0, i as int));
    }
    assert(h@.subrange(0, h@.len() as int) =~= h@);
    r
}

/// An inbound HTTP request.
#[derive(Debug)]
pub struct HttpRequest {
    pub method: HttpMethod,
    pub path: String,
    pub headers: Vec<(String, String)>,
    pub body: Vec<u8>,
}

/// A response returned to the HTTP boundary.
#[derive(Debug)]
pub struct HttpResponse {
    pub status_code: u16,
    pub headers: Vec<(String, String)>,
    pub body: Vec<u8>,
}

/// The model of a request: method, path, header pairs and body bytes.
pub struct RequestView {
    pub method: HttpMethod,
    pub path: Seq<char>,
    pub headers: Seq<(Seq<char>, Seq<char>)>,
    pub body: Seq<u8>,
}

impl View for HttpRequest {
    type V = RequestView;

    open spec fn view(&self) -> RequestView {
        RequestView {
            method: self.method,
            path: self.path@,
            headers: pairs_view(self.headers@),
            body: self.body@,
        }
    }
}

/// The model of a response: status code, header pairs and body bytes.
pub struct ResponseView {
    pub status_code: u16,
    pub headers: Seq<(Seq<char>, Seq<char>)>,
    pub body: Seq<u8>,
}

impl View for HttpResponse {
    type V = ResponseView;

    open spec fn view(&self) -> ResponseView {
        ResponseView {
            status_code: self.status_code,
            headers: pairs_view(self.headers@),
            body: self.body@,
        }
    }
}

impl Clone for HttpRequest {
    fn clone(&self) -> (r: Self)
        ensures
            r@ == self@,
    {
        let body = self.body.clone();
        assert(body@ =~= self.body@);
        HttpRequest {
            method: self.method,
            path: self.path.clone(),
            headers: clone_pairs(&self.headers),
            body,
        }
    }
}

impl Clone for HttpResponse {
    fn clone(&self) -> (r: Self)
        ensures
            r@ == self@,
    {
        let body = self.body.clone();
        assert(body@ =~= self.body@);
        HttpResponse { status_code: self.status_code, headers: clone_pairs(&self.headers), body }
    }
}

} // verus!
