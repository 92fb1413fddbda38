//! Use cases: system initialisation, bulk start and stop, and proxying one
//! HTTP request to the process that serves it.
use vstd::prelude::*;
use crate::address::{address_for, derive_address};
use crate::cache::{cache_answers, cache_get, cache_insert, new_cache};
use crate::codec::{
    deserialize_response, envelope_body, envelope_headers, envelope_response, envelope_status,
    json_parses, request_bytes, serialize_request,
};
use crate::entities::{
    CommunicationMode, HttpMethod, HttpRequest, HttpResponse, Process, ProcessId, RequestView, ResponseView, method_name,
    pairs_view,
};
use crate::errors::{CommunicationError, OrchestrationError, RepositoryError, UseCaseError, communication_message};
use crate::services::{PipeCommunicationService, ProcessOrchestrationService, ProcessRepository};
use crate::proxy::{is_first_match, no_match};

verus! {

/// The result of loading, with a repository failure carried as a use-case
/// error holding its message.
pub fn repository_outcome(outcome: Result<Vec<Process>, RepositoryError>) -> (r: Result<Vec<Process>, UseCaseError>)
    ensures
        outcome matches Ok(v) ==> (r matches Ok(w) && w == v),
        outcome matches Err(e) ==> (r matches Err(UseCaseError::RepositoryError(m))
            && m@ == crate::errors::repository_message(e)),
{
    match outcome {
        Ok(v) => Ok(v),
        Err(e) => Err(UseCaseError::RepositoryError(e.message())),
    }
}

/// The result of a bulk operation, with a supervisor failure carried as a
/// use-case error holding its message.
pub fn orchestration_outcome(outcome: Result<(), OrchestrationError>) -> (r: Result<(), UseCaseError>)
    ensures
        outcome is Ok ==> r is Ok,
        outcome matches Err(e) ==> (r matches Err(UseCaseError::OrchestrationError(m))
            && m@ == crate::errors::orchestration_message(e)),
{
    match outcome {
        Ok(()) => Ok(()),
        Err(e) => Err(UseCaseError::OrchestrationError(e.message())),
    }
}

/// The failures among per-id outcomes, each with its id, in order.
pub open spec fn failures_of(
    ids: Seq<ProcessId>,
    outcomes: Seq<Result<(), OrchestrationError>>,
) -> Seq<(ProcessId, OrchestrationError)>
    decreases outcomes.len(),
{
    if outcomes.len() == 0 || ids.len() == 0 {
        seq![]
    } else {
        let rest = failures_of(ids.drop_last(), outcomes.drop_last());
        match outcomes.last() {
            Ok(_) => rest,
            Err(e) => rest.push((ids.last(), e)),
        }
    }
}

/// Records the outcome for one id: a failure is appended with its id, a
/// success leaves the list as it was.
pub fn record_outcome(
    failures: &mut Vec<(ProcessId, OrchestrationError)>,
    id: &ProcessId,
    outcome: Result<(), OrchestrationError>,
)
    ensures
        outcome is Ok ==> final(failures)@ == old(failures)@,
        outcome matches Err(e) ==> final(failures)@ == old(failures)@.push((*id, e)),
{
    match outcome {
        Ok(()) => {},
        Err(e) => failures.push((id.clone(), e)),
    }
}

/// Starts each listed process in order, best effort: a failure does not stop
/// the others. Returns exactly the failures, each with its id, in the order
/// of the list.
pub fn start_each<O: ProcessOrchestrationService>(orchestrator: &mut O, ids: &Vec<ProcessId>) -> (r: Vec<(ProcessId, OrchestrationError)>)
    ensures
        exists|outcomes: Seq<Result<(), OrchestrationError>>|
            outcomes.len() == ids@.len() && r@ == #[trigger] failures_of(ids@, outcomes),
{
    let mut failures: Vec<(ProcessId, OrchestrationError)> = Vec::new();
    let ghost mut outcomes: Seq<Result<(), OrchestrationError>> = seq![];
    let mut i: usize = 0;
    while i < ids.len()
        invariant
            i <= ids@.len(),
            outcomes.len() == i,
            failures@ == failures_of(ids@.subrange(0, i as int), outcomes),
        decreases ids@.len() - i,
    {
        let outcome = orchestrator.start_process(&ids[i]);
        let ghost o = outcome;
        record_outcome(&mut failures, &ids[i], outcome);
        proof {
            let prefix = ids@.subrange(0, i + 1);
            assert(prefix.drop_last() =~= ids@.subrange(0, i as int));
            assert(outcomes.push(o).drop_last() =~= outcomes);
            outcomes = outcomes.push(o);
        }
        i = i + 1;
    }
    assert(ids@.subrange(0, ids@.len() as int) =~= ids@);
    failures
}

/// Loads the process definitions at startup.
pub struct InitializeSystemUseCase<R> {
    repository: R,
}

impl<R: ProcessRepository> InitializeSystemUseCase<R> {
    /// The repository loaded from.
    pub closed spec fn source(&self) -> R {
        self.repository
    }

    pub fn new(repository: R) -> (r: Self)
        ensures
            r.source() == repository,
    {
        InitializeSystemUseCase { repository }
    }

    pub fn execute(&self) -> (r: Result<Vec<Process>, UseCaseError>)
        ensures
            r matches Err(e) ==> e is RepositoryError,
    {
        repository_outcome(self.repository.load_all())
    }
}

/// Starts every registered process.
pub struct StartAllProcessesUseCase<O> {
    orchestrator: O,
}

impl<O: ProcessOrchestrationService> StartAllProcessesUseCase<O> {
    /// The orchestrator driven.
    pub closed spec fn target(&self) -> O {
        self.orchestrator
    }

    pub fn new(orchestrator: O) -> (r: Self)
        ensures
            r.target() == orchestrator,
    {
        StartAllProcessesUseCase { orchestrator }
    }

    pub fn execute(&mut self) -> (r: Result<(), UseCaseError>)
        ensures
            r matches Err(e) ==> e is OrchestrationError,
    {
        orchestration_outcome(self.orchestrator.start_all())
    }
}

/// Stops every registered process.
pub struct StopAllProcessesUseCase<O> {
    orchestrator: O,
}

impl<O: ProcessOrchestrationService> StopAllProcessesUseCase<O> {
    /// The orchestrator driven.
    pub closed spec fn target(&self) -> O {
        self.orchestrator
    }

    pub fn new(orchestrator: O) -> (r: Self)
        ensures
            r.target() == orchestrator,
    {
        StopAllProcessesUseCase { orchestrator }
    }

    pub fn execute(&mut self) -> (r: Result<(), UseCaseError>)
        ensures
            r matches Err(e) ==> e is OrchestrationError,
    {
        orchestration_outcome(self.orchestrator.stop_all())
    }
}

/// The cache key of a request: its method name, a colon, and its path.
/// Headers and body do not take part.
pub open spec fn cache_key_of(method: HttpMethod, path: Seq<char>) -> Seq<char> {
    method_name(method) + ":"@ + path
}

/// Where and what to send for one request.
#[derive(Debug)]
pub struct Dispatch {
    pub mode: CommunicationMode,
    pub address: String,
    pub payload: Vec<u8>,
}

/// Routes requests to processes, through an optional response cache and the
/// transport that each process's mode selects.
pub struct ProxyHttpRequestUseCase<P, T> {
    pipe_service: P,
    http_service: T,
    processes: Vec<Process>,
    cache: Option<moka::sync::Cache<String, HttpResponse>>,
}

impl<P: PipeCommunicationService, T: PipeCommunicationService> ProxyHttpRequestUseCase<P, T> {
    /// Whether responses are cached.
    pub closed spec fn caching(&self) -> bool {
        self.cache is Some
    }

    /// What the cache answers for each key.
    pub closed spec fn answers(&self) -> Map<Seq<char>, ResponseView> {
        cache_answers(self.cache->Some_0)
    }

    /// The processes, in declaration order.
    pub closed spec fn processes(&self) -> Seq<Process> {
        self.processes@
    }

    /// The route patterns of the processes, in declaration order.
    pub open spec fn patterns(&self) -> Seq<Seq<char>> {
        self.processes().map_values(|p: Process| p.route@)
    }

    /// The dispatch for `request` to the process at position `i`.
    pub open spec fn dispatch_to(&self, request: &HttpRequest, i: int, d: &Dispatch) -> bool {
        let p = self.processes()[i];
        &&& d.mode == p.communication_mode
        &&& d.address@ == address_for(p.pipe_name@, p.communication_mode)
        &&& d.payload@ == request_bytes(
            method_name(request.method),
            request.path@,
            pairs_view(request.headers@),
            request.body@,
        )
    }

    /// A proxy without a cache.
    pub fn new(pipe_service: P, http_service: T, processes: Vec<Process>) -> (r: Self)
        ensures
            !r.caching(),
            r.processes() == processes@,
    {
        Self::new_with_cache(pipe_service, http_service, processes, None)
    }

    /// A proxy with a cache of the given capacity, or without one.
    pub fn new_with_cache(
        pipe_service: P,
        http_service: T,
        processes: Vec<Process>,
        cache_size: Option<u64>,
    ) -> (r: Self)
        ensures
            r.caching() == cache_size is Some,
            r.caching() ==> r.answers() == crate::cache::no_answers(),
            r.processes() == processes@,
    {
        let cache = match cache_size {
            Some(size) => Some(new_cache(size)),
            None => None,
        };
        ProxyHttpRequestUseCase { pipe_service, http_service, processes, cache }
    }

    /// The cache key of a request.
    pub fn generate_cache_key(request: &HttpRequest) -> (r: String)
        ensures
            r@ == cache_key_of(request.method, request.path@),
    {
        String::from_str(request.method.as_str()).concat(":").concat(request.path.as_str())
    }

    /// The position of the first process, in declaration order, whose route
    /// matches `path`.
    pub fn find_matching_process(&self, path: &str) -> (r: Option<usize>)
        ensures
            r matches Some(i) ==> is_first_match(self.patterns(), path@, i as int),
            r is None <==> no_match(self.patterns(), path@),
    {
        let mut i: usize = 0;
        while i < self.processes.len()
            invariant
                i <= self.processes@.len(),
                forall|j: int| 0 <= j < i ==> !crate::entities::route_matches(#[trigger] self.patterns()[j], path@),
            decreases self.processes@.len() - i,
        {
            if self.processes[i].route.matches(path) {
                assert(crate::entities::route_matches(self.patterns()[i as int], path@));
                return Some(i);
            }
            i = i + 1;
        }
        None
    }

    /// The cached response for a request, if caching is on and the cache
    /// answers for its key.
    pub fn lookup(&self, request: &HttpRequest) -> (r: Option<HttpResponse>)
        ensures
            !self.caching() ==> r is None,
            r matches Some(v) ==> {
                let key = cache_key_of(request.method, request.path@);
                &&& self.answers().contains_key(key)
                &&& v@ == self.answers()[key]
            },
    {
        match &self.cache {
            Some(cache) => {
                let key = Self::generate_cache_key(request);
                cache_get(cache, &key)
            },
            None => None,
        }
    }

    /// Decides where a request goes: the first matching process, the address
    /// its endpoint name and mode derive, and the request's envelope. Only a
    /// request that no route matches is refused.
    pub fn dispatch(&self, request: &HttpRequest) -> (r: Result<Dispatch, UseCaseError>)
        ensures
            r is Err <==> no_match(self.patterns(), request.path@),
            r matches Err(e) ==> (e matches UseCaseError::NoRouteFound(p) && p@ == request.path@),
            r matches Ok(d) ==> exists|i: int| is_first_match(self.patterns(), request.path@, i) && self.dispatch_to(request, i, &d),
    {
        let i = match self.find_matching_process(request.path.as_str()) {
            Some(i) => i,
            None => return Err(UseCaseError::NoRouteFound(request.path.clone())),
        };
        let payload = match serialize_request(request) {
            Ok(b) => b,
            Err(e) => return Err(e),
        };
        let process = &self.processes[i];
        let address = derive_address(process.pipe_name.as_str(), process.communication_mode);
        let d = Dispatch { mode: process.communication_mode, address, payload };
        assert(self.dispatch_to(request, i as int, &d));
        Ok(d)
    }

    /// The transport for the socket mode.
    pub closed spec fn pipe_transport(&self) -> P {
        self.pipe_service
    }

    /// The transport for the loopback-HTTP mode.
    pub closed spec fn http_transport(&self) -> T {
        self.http_service
    }

    /// The transport a communication mode selects: the socket transport for
    /// `Pipe`, the loopback-HTTP transport for `Http`.
    pub fn transport_for(&self, mode: CommunicationMode) -> (r: Transport<'_, P, T>)
        ensures
            mode is Pipe <==> r is Socket,
            r matches Transport::Socket(p) ==> *p == self.pipe_transport(),
            r matches Transport::Loopback(t) ==> *t == self.http_transport(),
    {
        match mode {
            CommunicationMode::Pipe => Transport::Socket(&self.pipe_service),
            CommunicationMode::Http => Transport::Loopback(&self.http_service),
        }
    }

    /// Sends a payload through the transport that a mode selects.
    pub fn send(&self, mode: CommunicationMode, address: &str, payload: Vec<u8>) -> (r: Result<Vec<u8>, CommunicationError>) {
        match self.transport_for(mode) {
            Transport::Socket(p) => p.send_request(address, payload),
            Transport::Loopback(t) => t.send_request(address, payload),
        }
    }

    /// Turns the bytes a process answered with into a response and, when
    /// caching, stores it under the request's key.
    pub fn complete(&mut self, request: &HttpRequest, data: &[u8]) -> (r: Result<HttpResponse, UseCaseError>)
        ensures
            final(self).caching() == old(self).caching(),
            final(self).processes() == old(self).processes(),
            r is Ok <==> json_parses(data@),
            r matches Ok(resp) ==> resp@ == envelope_response(
                envelope_status(data@),
                envelope_headers(data@),
                envelope_body(data@),
            ),
            r matches Err(e) ==> e is DeserializationError,
            old(self).caching() && r is Ok ==> final(self).answers() == old(self).answers().insert(
                cache_key_of(request.method, request.path@),
                r->Ok_0@,
            ),
            old(self).caching() && r is Err ==> final(self).answers() == old(self).answers(),
    {
        let response = deserialize_response(data)?;
        match &mut self.cache {
            Some(cache) => {
                let key = Self::generate_cache_key(request);
                cache_insert(cache, key, response.clone());
            },
            None => {},
        }
        Ok(response)
    }

    /// Handles what the transport replied: a failure becomes a communication
    /// error carrying its message, with the cache untouched; bytes are
    /// completed as by `complete`.
    pub fn finish(&mut self, request: &HttpRequest, reply: Result<Vec<u8>, CommunicationError>) -> (r: Result<HttpResponse, UseCaseError>)
        ensures
            final(self).caching() == old(self).caching(),
            final(self).processes() == old(self).processes(),
            reply matches Err(e) ==> (r matches Err(UseCaseError::CommunicationError(m))
                && m@ == communication_message(e)),
            reply matches Ok(data) ==> (r is Ok <==> json_parses(data@)),
            reply matches Ok(data) ==> (r matches Ok(resp) ==> resp@ == envelope_response(
                envelope_status(data@),
                envelope_headers(data@),
                envelope_body(data@),
            )),
            reply is Ok ==> (r matches Err(e) ==> e is DeserializationError),
            old(self).caching() && r is Ok ==> final(self).answers() == old(self).answers().insert(
                cache_key_of(request.method, request.path@),
                r->Ok_0@,
            ),
            old(self).caching() && r is Err ==> final(self).answers() == old(self).answers(),
    {
        match reply {
            Ok(data) => self.complete(request, data.as_slice()),
            Err(e) => Err(UseCaseError::CommunicationError(e.message())),
        }
    }

    /// Serves a request given what the cache answered for it: a cached
    /// response is returned as it is, with no routing and no transport;
    /// otherwise the request is dispatched, sent through its mode's
    /// transport, and the reply finished.
    pub fn serve(&mut self, request: HttpRequest, cached: Option<HttpResponse>) -> (r: Result<HttpResponse, UseCaseError>)
        ensures
            final(self).caching() == old(self).caching(),
            final(self).processes() == old(self).processes(),
            cached matches Some(v) ==> (r matches Ok(resp) && resp@ == v@),
            cached is Some ==> final(self).answers() == old(self).answers(),
            cached is None && no_match(old(self).patterns(), request.path@) ==> (r matches Err(
                UseCaseError::NoRouteFound(p),
            ) && p@ == request.path@),
            r matches Err(UseCaseError::NoRouteFound(_)) ==> cached is None && no_match(old(self).patterns(), request.path@),
            r matches Err(e) ==> e is NoRouteFound || e is CommunicationError || e is DeserializationError,
            cached is None ==> (r matches Ok(resp) ==> !no_match(old(self).patterns(), request.path@)
                && exists|d: Seq<u8>| #[trigger] json_parses(d)
                && resp@ == envelope_response(envelope_status(d), envelope_headers(d), envelope_body(d))),
            cached is None && old(self).caching() && r is Ok ==> final(self).answers() == old(self).answers().insert(
                cache_key_of(request.method, request.path@),
                r->Ok_0@,
            ),
            old(self).caching() && r is Err ==> final(self).answers() == old(self).answers(),
    {
        match cached {
            Some(v) => return Ok(v),
            None => {},
        }
        let d = self.dispatch(&request)?;
        let reply = self.send(d.mode, d.address.as_str(), d.payload);
        let r = self.finish(&request, reply);
        proof {
            if r is Ok {
                let data = reply->Ok_0;
                assert(json_parses(data@));
            }
        }
        r
    }

    /// Proxies one request: the cached response when the cache answers for
    /// the request's key; otherwise the first matching process is sent the
    /// request's envelope over its mode's transport, and the answer is
    /// decoded and, when caching, stored.
    pub fn execute(&mut self, request: HttpRequest) -> (r: Result<HttpResponse, UseCaseError>)
        ensures
            final(self).caching() == old(self).caching(),
            final(self).processes() == old(self).processes(),
            ({
                let key = cache_key_of(request.method, request.path@);
                let from_cache = old(self).caching() && old(self).answers().contains_key(key);
                &&& r matches Ok(resp) ==> (from_cache && resp@ == old(self).answers()[key]) || (
                    !no_match(old(self).patterns(), request.path@) && exists|d: Seq<u8>| #[trigger] json_parses(d)
                        && resp@ == envelope_response(envelope_status(d), envelope_headers(d), envelope_body(d)))
                &&& !old(self).caching() && no_match(old(self).patterns(), request.path@) ==> (r matches Err(
                    UseCaseError::NoRouteFound(p),
                ) && p@ == request.path@)
                &&& no_match(old(self).patterns(), request.path@) ==> r is Ok || (r matches Err(
                    UseCaseError::NoRouteFound(p),
                ) && p@ == request.path@)
                &&& r matches Err(UseCaseError::NoRouteFound(_)) ==> no_match(old(self).patterns(), request.path@)
                &&& r matches Err(e) ==> e is NoRouteFound || e is CommunicationError || e is DeserializationError
                &&& old(self).caching() && r is Ok ==> final(self).answers() == old(self).answers().insert(key, r->Ok_0@)
                &&& old(self).caching() && r is Err ==> final(self).answers() == old(self).answers()
            }),
    {
        let ghost key = cache_key_of(request.method, request.path@);
        let cached = self.lookup(&request);
        proof {
            if cached is Some {
                assert(self.answers().insert(key, cached->Some_0@) =~= self.answers());
            }
        }
        self.serve(request, cached)
    }
}

/// The transport a communication mode selects.
pub enum Transport<'a, P, T> {
    Socket(&'a P),
    Loopback(&'a T),
}

/// A cached response is answered again for every later request with the
/// same method and path, whatever its headers and body: after a response is
/// stored under one request's key, the cache's answer for another request
/// with that method and path is that response.
pub proof fn lemma_cache_answers_same_method_and_path(
    answers: Map<Seq<char>, ResponseView>,
    first: RequestView,
    second: RequestView,
    response: ResponseView,
)
    requires
        first.method == second.method,
        first.path == second.path,
    ensures
        ({
            let stored = answers.insert(cache_key_of(first.method, first.path), response);
            &&& stored.contains_key(cache_key_of(second.method, second.path))
            &&& stored[cache_key_of(second.method, second.path)] == response
        }),
{
}

} // verus!
