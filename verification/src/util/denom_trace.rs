//! Resolving a denom to its base denom. A hashed cross-chain denom needs a
//! trace lookup on the chain; what was looked up once is kept in a cache
//! that only grows.

use vstd::prelude::*;
use vstd::string::StringExecFns;
use crate::error::TracyError;
use crate::error::TracyErrorView;
use crate::text::skip_chars;
use crate::text::starts_with;
use crate::text::str_eq;
use crate::util::search::first_index;
use crate::util::search::lemma_first_index;
use crate::util::search::lemma_first_index_push;

verus! {

/// Where a cross-chain denom comes from: the path it took and the denom it
/// had at its origin.
#[derive(Debug, PartialEq, Eq)]
pub struct DenomTrace {
    pub path: String,
    pub base_denom: String,
}

/// One entry of the cache: the trace of the hashed denom `ibc`.
#[derive(Debug, PartialEq, Eq)]
pub struct DenomTraceCache {
    pub trace: DenomTrace,
    pub ibc: String,
}

impl Clone for DenomTrace {
    fn clone(&self) -> (copy: DenomTrace)
        ensures
            copy == *self,
    {
        DenomTrace { path: self.path.clone(), base_denom: self.base_denom.clone() }
    }
}

impl Clone for DenomTraceCache {
    fn clone(&self) -> (copy: DenomTraceCache)
        ensures
            copy == *self,
    {
        DenomTraceCache { trace: self.trace.clone(), ibc: self.ibc.clone() }
    }
}

impl DenomTraceCache {
    /// Whether this is the entry of the hashed denom `ibc`.
    pub open spec fn is_for(&self, ibc: Seq<char>) -> bool {
        self.ibc@ == ibc
    }
}

/// What has to happen for a denom to be resolved.
#[derive(Debug, PartialEq, Eq)]
pub enum Resolution {
    /// Nothing: the base denom is known.
    Resolved { base_denom: String },
    /// The trace has to be fetched from `url`, after a pause of
    /// `pause_millis` milliseconds that spares the server.
    Lookup { url: String, pause_millis: u64 },
}

/// A `Resolution` with its texts as character sequences.
pub enum ResolutionView {
    Resolved { base_denom: Seq<char> },
    Lookup { url: Seq<char>, pause_millis: u64 },
}

impl View for Resolution {
    type V = ResolutionView;

    open spec fn view(&self) -> ResolutionView {
        match *self {
            Resolution::Resolved { base_denom } => ResolutionView::Resolved {
                base_denom: base_denom@,
            },
            Resolution::Lookup { url, pause_millis } => ResolutionView::Lookup {
                url: url@,
                pause_millis,
            },
        }
    }
}

/// Whether a denom is the hash of a cross-chain denom.
pub open spec fn is_hashed(denom: Seq<char>) -> bool {
    "ibc/"@.is_prefix_of(denom)
}

/// The hash in a hashed denom: what follows the prefix.
pub open spec fn hash_of(denom: Seq<char>) -> Seq<char> {
    denom.skip(4)
}

/// The address at which the node `api_url` serves the trace of `hash`.
pub open spec fn trace_url(api_url: Seq<char>, hash: Seq<char>) -> Seq<char> {
    api_url + "/ibc/apps/transfer/v1/denom_traces/"@ + hash
}

/// The position of the first entry for the hashed denom `ibc`.
pub open spec fn cache_position(cache: Seq<DenomTraceCache>, ibc: Seq<char>) -> Option<int> {
    first_index(cache, |e: DenomTraceCache| e.is_for(ibc))
}

/// `cache_position` finds an entry exactly where there is one, and then the
/// first.
pub proof fn lemma_cache_position(cache: Seq<DenomTraceCache>, ibc: Seq<char>)
    ensures
        match cache_position(cache, ibc) {
            Some(i) => {
                &&& 0 <= i < cache.len()
                &&& cache[i].ibc@ == ibc
                &&& forall|j: int| 0 <= j < i ==> (#[trigger] cache[j]).ibc@ != ibc
            },
            None => forall|j: int| 0 <= j < cache.len() ==> (#[trigger] cache[j]).ibc@ != ibc,
        },
{
    lemma_first_index(cache, |e: DenomTraceCache| e.is_for(ibc));
}

/// A cache is well formed when it holds hashed denoms only, and each once.
pub open spec fn cache_wf(cache: Seq<DenomTraceCache>) -> bool {
    &&& forall|i: int| 0 <= i < cache.len() ==> is_hashed((#[trigger] cache[i]).ibc@)
    &&& forall|i: int, j: int|
        0 <= i < j < cache.len() ==> (#[trigger] cache[i]).ibc@ != (#[trigger] cache[j]).ibc@
}

/// Whether resolving `denom` needs the network: it is hashed and the cache
/// does not hold it.
pub open spec fn needs_lookup(cache: Seq<DenomTraceCache>, denom: Seq<char>) -> bool {
    is_hashed(denom) && cache_position(cache, denom) is None
}

/// What `resolve_ibc` decides.
pub open spec fn spec_resolve_ibc(
    cache: Seq<DenomTraceCache>,
    api: Seq<char>,
    denom: Seq<char>,
    should_sleep: bool,
) -> ResolutionView {
    if !is_hashed(denom) {
        ResolutionView::Resolved { base_denom: denom }
    } else {
        match cache_position(cache, denom) {
            Some(i) => ResolutionView::Resolved { base_denom: cache[i].trace.base_denom@ },
            None => ResolutionView::Lookup {
                url: trace_url(api, hash_of(denom)),
                pause_millis: if should_sleep {
                    200
                } else {
                    0
                },
            },
        }
    }
}

/// The base denom of `denom` and the cache afterwards, once `trace` has
/// come from the network. The trace counts only where a lookup was needed:
/// then it is appended under `denom`. Otherwise the cache stays as it is.
pub open spec fn spec_resolve_with_trace(
    cache: Seq<DenomTraceCache>,
    denom: String,
    trace: DenomTrace,
) -> (Seq<char>, Seq<DenomTraceCache>) {
    if !is_hashed(denom@) {
        (denom@, cache)
    } else {
        match cache_position(cache, denom@) {
            Some(i) => (cache[i].trace.base_denom@, cache),
            None => (trace.base_denom@, cache.push(DenomTraceCache { trace, ibc: denom })),
        }
    }
}

/// Resolving never removes or changes an entry, and adds at most one.
pub proof fn lemma_cache_only_grows(cache: Seq<DenomTraceCache>, denom: String, trace: DenomTrace)
    ensures
        cache.is_prefix_of(spec_resolve_with_trace(cache, denom, trace).1),
        spec_resolve_with_trace(cache, denom, trace).1.len() <= cache.len() + 1,
        needs_lookup(cache, denom@) <==> spec_resolve_with_trace(cache, denom, trace).1.len()
            == cache.len() + 1,
{
}

/// Resolving keeps a well-formed cache well formed.
pub proof fn lemma_resolve_keeps_wf(cache: Seq<DenomTraceCache>, denom: String, trace: DenomTrace)
    requires
        cache_wf(cache),
    ensures
        cache_wf(spec_resolve_with_trace(cache, denom, trace).1),
{
    lemma_cache_position(cache, denom@);
}

/// The position of an entry does not change when the cache grows.
proof fn lemma_position_after_push(
    cache: Seq<DenomTraceCache>,
    entry: DenomTraceCache,
    ibc: Seq<char>,
)
    ensures
        cache_position(cache.push(entry), ibc) == match cache_position(cache, ibc) {
            Some(i) => Some(i),
            None => if entry.ibc@ == ibc {
                Some(cache.len() as int)
            } else {
                None
            },
        },
{
    lemma_first_index_push(cache, entry, |e: DenomTraceCache| e.is_for(ibc));
}

/// Resolving is idempotent: once a denom has been resolved, resolving it
/// again needs no lookup, gives the same base denom whatever the network
/// would answer, and leaves the cache as it is.
pub proof fn lemma_resolve_idempotent(
    cache: Seq<DenomTraceCache>,
    api: Seq<char>,
    denom: String,
    first: DenomTrace,
    second: DenomTrace,
    should_sleep: bool,
)
    ensures
        ({
            let (base, after) = spec_resolve_with_trace(cache, denom, first);
            &&& !needs_lookup(after, denom@)
            &&& spec_resolve_ibc(after, api, denom@, should_sleep) == (ResolutionView::Resolved {
                base_denom: base,
            })
            &&& spec_resolve_with_trace(after, denom, second) == (base, after)
        }),
{
    lemma_cache_position(cache, denom@);
    lemma_position_after_push(cache, DenomTraceCache { trace: first, ibc: denom }, denom@);
}

/// A resolution leaves every other denom's answer as it was, unless that
/// denom is the one that was just added.
pub proof fn lemma_resolve_keeps_others(
    cache: Seq<DenomTraceCache>,
    api: Seq<char>,
    denom: String,
    trace: DenomTrace,
    other: Seq<char>,
    should_sleep: bool,
)
    requires
        other != denom@,
    ensures
        spec_resolve_ibc(spec_resolve_with_trace(cache, denom, trace).1, api, other, should_sleep)
            == spec_resolve_ibc(cache, api, other, should_sleep),
{
    lemma_cache_position(cache, other);
    lemma_position_after_push(cache, DenomTraceCache { trace, ibc: denom }, other);
}

/// The first cache entry for the hashed denom `ibc`, if there is one.
pub fn denom_trace_cache_contains<'a>(cache: &'a Vec<DenomTraceCache>, ibc: &'a str) -> (found:
    Option<&'a DenomTraceCache>)
    ensures
        match found {
            Some(entry) => cache_position(cache@, ibc@) matches Some(i) && *entry == cache@[i],
            None => cache_position(cache@, ibc@) is None,
        },
{
    let mut i: usize = 0;
    while i < cache.len()
        invariant
            i <= cache.len(),
            forall|j: int| 0 <= j < i ==> (#[trigger] cache@[j]).ibc@ != ibc@,
        decreases cache.len() - i,
    {
        if str_eq(cache[i].ibc.as_str(), ibc) {
            proof {
                lemma_cache_position(cache@, ibc@);
            }
            return Some(&cache[i]);
        }
        i += 1;
    }
    proof {
        lemma_cache_position(cache@, ibc@);
    }
    None
}

/// The address at which the node `api_url` serves the trace of `hash`.
pub fn denom_trace_url(api_url: &str, hash: &str) -> (url: String)
    ensures
        url@ == trace_url(api_url@, hash@),
{
    let mut url = String::from_str(api_url);
    url.append("/ibc/apps/transfer/v1/denom_traces/");
    url.append(hash);
    url
}

/// Whether a denom is the hash of a cross-chain denom.
pub fn denom_is_hashed(denom: &str) -> (hashed: bool)
    ensures
        hashed == is_hashed(denom@),
{
    starts_with(denom, "ibc/")
}

/// Decides how `denom` is resolved. A denom that is no hash is its own base
/// denom. A hashed denom that the cache holds resolves from the cache.
/// Only a hashed denom that the cache lacks needs the network: the answer
/// names the address to fetch, and a pause of 200 milliseconds before it
/// where `should_sleep` asks for one.
pub fn resolve_ibc(cache: &Vec<DenomTraceCache>, api: &str, denom: &str, should_sleep: bool) -> (r:
    Resolution)
    ensures
        r@ == spec_resolve_ibc(cache@, api@, denom@, should_sleep),
{
    if !denom_is_hashed(denom) {
        return Resolution::Resolved { base_denom: String::from_str(denom) };
    }
    match denom_trace_cache_contains(cache, denom) {
        Some(entry) => Resolution::Resolved { base_denom: entry.trace.base_denom.clone() },
        None => {
            proof {
                reveal_strlit("ibc/");
            }
            let hash = skip_chars(denom, 4);
            Resolution::Lookup {
                url: denom_trace_url(api, hash),
                pause_millis: if should_sleep {
                    200
                } else {
                    0
                },
            }
        },
    }
}

/// Resolves `denom` once `trace` has come from the network, and keeps the
/// trace: where `resolve_ibc` asked for a lookup, the trace is appended to
/// the cache under `denom` and its base denom is the answer. Where no
/// lookup was needed the trace is dropped and the cache is handed back
/// unchanged, so that a denom never enters the cache twice.
pub fn resolve_with_trace(cache: Vec<DenomTraceCache>, denom: String, trace: DenomTrace) -> (r: (
    String,
    Vec<DenomTraceCache>,
))
    ensures
        (r.0@, r.1@) == spec_resolve_with_trace(cache@, denom, trace),
{
    if !denom_is_hashed(denom.as_str()) {
        return (denom, cache);
    }
    let cached = match denom_trace_cache_contains(&cache, denom.as_str()) {
        Some(entry) => Some(entry.trace.base_denom.clone()),
        None => None,
    };
    match cached {
        Some(base) => (base, cache),
        None => {
            let base = trace.base_denom.clone();
            let mut cache = cache;
            cache.push(DenomTraceCache { trace, ibc: denom });
            (base, cache)
        },
    }
}

/// The cache to work with after an attempt to load it, and what went wrong
/// with the attempt. A cache that could not be loaded is an empty cache and
/// a failure to report; nobody has to stop for it.
pub fn cache_after_load(loaded: Result<Vec<DenomTraceCache>, String>) -> (r: (
    Vec<DenomTraceCache>,
    Option<TracyError>,
))
    ensures
        match loaded {
            Ok(entries) => r.0 == entries && r.1 is None,
            Err(cause) => {
                &&& r.0@ == Seq::<DenomTraceCache>::empty()
                &&& r.1 matches Some(failure) && failure@ == (TracyErrorView::CacheIOFailure {
                    cause: cause@,
                })
            },
        },
{
    match loaded {
        Ok(entries) => (entries, None),
        Err(cause) => (Vec::new(), Some(TracyError::CacheIOFailure { cause })),
    }
}

} // verus!
