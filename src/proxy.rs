//! The route table: maps request paths to the process that serves them.
use vstd::prelude::*;
use crate::address::{get_pipe_address_from_name, pipe_address};
use crate::config::ProcessConfig;
use crate::entities::{matches_pattern, route_matches};

verus! {

/// `i` is the first position whose pattern matches `path`.
pub open spec fn is_first_match(patterns: Seq<Seq<char>>, path: Seq<char>, i: int) -> bool {
    &&& 0 <= i < patterns.len()
    &&& route_matches(patterns[i], path)
    &&& forall|j: int| 0 <= j < i ==> !route_matches(#[trigger] patterns[j], path)
}

/// No pattern matches `path`.
pub open spec fn no_match(patterns: Seq<Seq<char>>, path: Seq<char>) -> bool {
    forall|j: int| 0 <= j < patterns.len() ==> !route_matches(#[trigger] patterns[j], path)
}

/// Mapping from a route pattern to the socket of the process behind it.
#[derive(Debug, Clone)]
pub struct RouteMapping {
    pub pattern: String,
    pub pipe_address: String,
    pub process_id: String,
}

/// The proxy's route table, in declaration order.
#[derive(Debug, Clone)]
pub struct ProxyState {
    pub routes: Vec<RouteMapping>,
}

impl ProxyState {
    /// The patterns of the table, in order.
    pub open spec fn patterns(&self) -> Seq<Seq<char>> {
        self.routes@.map_values(|m: RouteMapping| m.pattern@)
    }

    /// One mapping per configuration, in the same order.
    pub fn new(configs: Vec<ProcessConfig>) -> (r: Self)
        ensures
            r.routes@.len() == configs@.len(),
            forall|i: int| 0 <= i < configs@.len() ==> {
                &&& (#[trigger] r.routes@[i]).pattern@ == configs@[i].route@
                &&& r.routes@[i].pipe_address@ == pipe_address(configs@[i].pipe_name@)
                &&& r.routes@[i].process_id@ == configs@[i].id@
            },
    {
        let mut routes: Vec<RouteMapping> = Vec::new();
        let mut i: usize = 0;
        while i < configs.len()
            invariant
                i <= configs@.len(),
                routes@.len() == i,
                forall|j: int| 0 <= j < i ==> {
                    &&& (#[trigger] routes@[j]).pattern@ == configs@[j].route@
                    &&& routes@[j].pipe_address@ == pipe_address(configs@[j].pipe_name@)
                    &&& routes@[j].process_id@ == configs@[j].id@
                },
            decreases configs@.len() - i,
        {
            let config = &configs[i];
            let pipe_address = Self::get_pipe_address(config.pipe_name.as_str());
            routes.push(RouteMapping {
                pattern: config.route.clone(),
                pipe_address,
                process_id: config.id.clone(),
            });
            i = i + 1;
        }
        ProxyState { routes }
    }

    /// The socket path for an endpoint name.
    pub fn get_pipe_address(pipe_name: &str) -> (r: String)
        ensures
            r@ == pipe_address(pipe_name@),
    {
        get_pipe_address_from_name(pipe_name)
    }

    /// The position of the first mapping whose pattern matches `path`.
    pub fn find_route_index(&self, path: &str) -> (r: Option<usize>)
        ensures
            r matches Some(i) ==> is_first_match(self.patterns(), path@, i as int),
            r is None <==> no_match(self.patterns(), path@),
    {
        let mut i: usize = 0;
        while i < self.routes.len()
            invariant
                i <= self.routes@.len(),
                forall|j: int| 0 <= j < i ==> !route_matches(#[trigger] self.patterns()[j], path@),
            decreases self.routes@.len() - i,
        {
            if matches_pattern(path, self.routes[i].pattern.as_str()) {
                assert(route_matches(self.patterns()[i as int], path@));
                return Some(i);
            }
            i = i + 1;
        }
        None
    }

    /// The first mapping, in declaration order, whose pattern matches `path`.
    pub fn find_route(&self, path: &str) -> (r: Option<&RouteMapping>)
        ensures
            r matches Some(m) ==> exists|i: int|
                is_first_match(self.patterns(), path@, i) && *m == #[trigger] self.routes@[i],
            r is None <==> no_match(self.patterns(), path@),
    {
        match self.find_route_index(path) {
            Some(i) => Some(&self.routes[i]),
            None => None,
        }
    }

    /// Does `path` match `pattern`.
    pub fn matches_pattern(path: &str, pattern: &str) -> (r: bool)
        ensures
            r == route_matches(pattern@, path@),
    {
        matches_pattern(path, pattern)
    }
}

/// Of two entries that both match a path, the one declared first is the
/// one chosen: the chosen position is never after the earlier entry.
pub proof fn lemma_first_registered_wins(patterns: Seq<Seq<char>>, path: Seq<char>, i: int, j: int, k: int)
    requires
        0 <= i < j < patterns.len(),
        route_matches(patterns[i], path),
        route_matches(patterns[j], path),
        is_first_match(patterns, path, k),
    ensures
        k <= i,
        k != j,
{
}

/// The first match is unique.
pub proof fn lemma_first_match_unique(patterns: Seq<Seq<char>>, path: Seq<char>, i: int, k: int)
    requires
        is_first_match(patterns, path, i),
        is_first_match(patterns, path, k),
    ensures
        i == k,
{
    if i < k {
        assert(!route_matches(patterns[i], path));
    } else if k < i {
        assert(!route_matches(patterns[k], path));
    }
}

} // verus!
