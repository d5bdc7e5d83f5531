//! Source arbitration: given the freshness classification of the cached file
//! and the outcome of at most one network fetch, decide which payload the run
//! returns and whether anything is written back to the cache file.
//!
//! A fresh cache is served without touching the network. A stale cache is
//! refreshed, but a failed fetch degrades gracefully to the old content
//! instead of failing the run. An absent cache has nothing to fall back to,
//! so there a failed fetch is an error. `Unclassified` must never get here;
//! it is rejected unconditionally.

use vstd::prelude::*;

use crate::cache::Data;

verus! {

/// The outcome of the single network fetch the application may perform:
/// either the response text, or a failure (whose transport-level cause the
/// arbitration logic never inspects).
#[derive(Debug, PartialEq, Clone)]
pub enum FetchOutcome {
    /// The fetch succeeded with this response text.
    Fetched(String),
    /// The fetch failed at the network or transport layer.
    Failed,
}

/// Why arbitration failed to produce a payload.
#[derive(Debug, PartialEq, Eq, Clone, Copy)]
pub enum ArbiterError {
    /// The fetch failed and there was no cached content to fall back to.
    ResolutionError,
    /// Arbitration was asked to resolve an `Unclassified` cache, a state
    /// that must never be observed past initialization.
    InvariantViolation,
}

/// What a successful arbitration decided: the payload to hand to the caller,
/// and the content, if any, to write back to the cache file.
#[derive(Debug, PartialEq, Clone)]
pub struct Resolution {
    /// The raw text the run returns to its caller.
    pub output: String,
    /// The content to persist to the cache file, or `None` when the file is
    /// to be left untouched.
    pub persist: Option<String>,
}

impl Data {
    /// Whether this classification calls for a network fetch: a fresh cache
    /// is served as is, and an unclassified cache is rejected without ever
    /// touching the network, so only stale or absent caches fetch.
    pub fn needs_fetch(&self) -> (b: bool)
        ensures
            b == (self is Stale || self is Absent),
    {
        match self {
            Data::Stale(_) => true,
            Data::Absent => true,
            _ => false,
        }
    }
}

/// Attempt-fetch-with-fallback: the refresh step of the stale path. A
/// successful fetch is returned and persisted; a failed fetch is swallowed
/// and the previously cached content is returned, with nothing persisted.
pub fn fetch_or_fallback(fallback: String, fetch: FetchOutcome) -> (r: Resolution)
    ensures
        fetch matches FetchOutcome::Fetched(t) ==> r.output == t && r.persist == Some(t),
        fetch is Failed ==> r.output == fallback && r.persist is None,
{
    match fetch {
        FetchOutcome::Fetched(t) => Resolution { output: t.clone(), persist: Some(t) },
        FetchOutcome::Failed => Resolution { output: fallback, persist: None },
    }
}

/// The decision procedure. `fetch` is the outcome of the single network
/// fetch, present exactly when `state.needs_fetch()` asked for one.
///
/// Fresh content is returned unchanged and nothing is persisted. Stale
/// content is replaced by a successful fetch (which is also persisted), and
/// kept — without error and without persisting — when the fetch failed.
/// With no cached file, a successful fetch is returned and persisted, and a
/// failed fetch is an error. An unclassified cache always fails, whatever
/// the configuration.
pub fn resolve(state: &Data, fetch: Option<FetchOutcome>) -> (r: Result<
    Resolution,
    ArbiterError,
>)
    requires
        fetch is Some <==> (state is Stale || state is Absent),
    ensures
        state matches Data::Fresh(c) ==> (r matches Ok(res) && res.output == c
            && res.persist is None),
        state matches Data::Stale(c) ==> {
            &&& fetch matches Some(FetchOutcome::Fetched(t)) ==> (r matches Ok(res)
                && res.output == t && res.persist == Some(t))
            &&& fetch == Some(FetchOutcome::Failed) ==> (r matches Ok(res) && res.output == c
                && res.persist is None)
        },
        state is Absent ==> {
            &&& fetch matches Some(FetchOutcome::Fetched(t)) ==> (r matches Ok(res)
                && res.output == t && res.persist == Some(t))
            &&& fetch == Some(FetchOutcome::Failed) ==> r == Err::<Resolution, ArbiterError>(
                ArbiterError::ResolutionError,
            )
        },
        state is Unclassified ==> r == Err::<Resolution, ArbiterError>(
            ArbiterError::InvariantViolation,
        ),
        state is Fresh || state is Stale ==> r is Ok,
{
    match state {
        Data::Fresh(c) => Ok(Resolution { output: c.clone(), persist: None }),
        Data::Stale(c) => match fetch {
            Option::Some(f) => Ok(fetch_or_fallback(c.clone(), f)),
            Option::None => vstd::pervasive::unreached(),
        },
        Data::Absent => match fetch {
            Option::Some(FetchOutcome::Fetched(t)) => Ok(Resolution {
                output: t.clone(),
                persist: Some(t),
            }),
            Option::Some(FetchOutcome::Failed) => Err(ArbiterError::ResolutionError),
            Option::None => vstd::pervasive::unreached(),
        },
        Data::Unclassified => Err(ArbiterError::InvariantViolation),
    }
}

} // verus!
