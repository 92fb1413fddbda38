//! The response cache, held in a bounded moka cache keyed by
//! `METHOD:path`.
use vstd::prelude::*;
use crate::entities::{HttpResponse, ResponseView};

verus! {

#[verifier::external_type_specification]
#[verifier::external_body]
#[verifier::reject_recursive_types(K)]
#[verifier::reject_recursive_types(V)]
#[verifier::reject_recursive_types(S)]
pub struct ExCache<K, V, S>(moka::sync::Cache<K, V, S>);

/// For each key, the response a lookup gives when it finds the key: the one
/// last inserted under it. A lookup may also find nothing, as the cache
/// evicts entries to stay within its capacity.
pub uninterp spec fn cache_answers(c: moka::sync::Cache<String, HttpResponse>) -> Map<Seq<char>, ResponseView>;

/// The answers of an empty cache.
pub open spec fn no_answers() -> Map<Seq<char>, ResponseView> {
    Map::empty()
}

/// Relies on moka's `sync::Cache::new`: an empty cache that holds at most
/// `capacity` entries.
#[verifier::external_body]
pub(crate) fn new_cache(capacity: u64) -> (r: moka::sync::Cache<String, HttpResponse>)
    ensures
        cache_answers(r) == no_answers(),
{
    moka::sync::Cache::new(capacity)
}

/// Relies on moka's `sync::Cache::get`: a clone of the value stored under
/// the key, or nothing.
#[verifier::external_body]
pub(crate) fn cache_get(c: &moka::sync::Cache<String, HttpResponse>, key: &String) -> (r: Option<HttpResponse>)
    ensures
        r matches Some(v) ==> cache_answers(*c).contains_key(key@) && v@ == cache_answers(*c)[key@],
{
    c.get(key)
}

/// Relies on moka's `sync::Cache::insert`: the value replaces any value
/// stored under the key.
#[verifier::external_body]
pub(crate) fn cache_insert(c: &mut moka::sync::Cache<String, HttpResponse>, key: String, value: HttpResponse)
    ensures
        cache_answers(*final(c)) == cache_answers(*old(c)).insert(key@, value@),
{
    c.insert(key, value)
}

} // verus!
