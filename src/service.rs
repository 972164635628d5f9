use vstd::prelude::*;
use crate::cache::{
    fetched_view, needs_fetch, populate_next, populate_result, PackageCache,
};
use crate::package::Package;
use crate::query::{is_valid_query, validate_string, QueryError};
use crate::registry::{tag_of, RegistryError};
use crate::search::{lowercase_of, matching, search};

verus! {

/// Identifies a package by its author and name.
#[derive(Clone, Debug)]
pub struct PackageRequest {
    pub package: String,
    pub username: String,
}

/// Identifies one release of a package.
#[derive(Clone, Debug)]
pub struct DocsRequest {
    pub package: String,
    pub username: String,
    pub version: String,
}

/// A search of the package catalogue by name.
#[derive(Clone, Debug)]
pub struct SearchRequest {
    pub query: String,
}

/// Why a package search failed.
#[derive(Debug, Clone, Copy, PartialEq, Eq)]
pub enum SearchError {
    /// The query holds a character outside `[a-z0-9-]`.
    Query(QueryError),
    /// The catalogue could not be obtained.
    Registry(RegistryError),
}

/// The text that reports a search error.
pub open spec fn search_error_message(e: SearchError) -> Seq<char> {
    match e {
        SearchError::Query(_) => "Allowed characters: digits (0-9), lowercase letters (a-z), hyphen (-)"@,
        SearchError::Registry(r) => tag_of(r),
    }
}

impl SearchError {
    /// The text that reports this error.
    pub fn message(&self) -> (r: &'static str)
        ensures
            r@ == search_error_message(*self),
    {
        match self {
            SearchError::Query(q) => q.message(),
            SearchError::Registry(r) => r.tag(),
        }
    }
}

/// What a search does next, decided before any fetch.
pub enum SearchStep {
    /// The query was turned away; the cache was not consulted.
    Rejected(SearchError),
    /// The catalogue was cached; these are the matching records.
    Found(Vec<Package>),
    /// The catalogue must be fetched first; hand the outcome to `finish_search`.
    Fetch,
}

/// The outcome of a search for `query` on a cell holding `cell`, where a
/// fetch, if one is made, yields `fetched`.
pub open spec fn search_outcome(
    cell: Option<Seq<Package>>,
    query: Seq<char>,
    fetched: Result<Seq<Package>, RegistryError>,
) -> Result<Seq<Package>, SearchError> {
    if !is_valid_query(query) {
        Err(SearchError::Query(QueryError::InvalidCharacters))
    } else {
        match populate_result(cell, fetched) {
            Ok(c) => Ok(matching(c, lowercase_of(query))),
            Err(e) => Err(SearchError::Registry(e)),
        }
    }
}

/// What the cell holds after a search for `query`.
pub open spec fn search_next(
    cell: Option<Seq<Package>>,
    query: Seq<char>,
    fetched: Result<Seq<Package>, RegistryError>,
) -> Option<Seq<Package>> {
    if !is_valid_query(query) {
        cell
    } else {
        populate_next(cell, fetched)
    }
}

/// A search outcome seen through the contents of its collection.
pub open spec fn outcome_view(r: Result<Vec<Package>, SearchError>) -> Result<
    Seq<Package>,
    SearchError,
> {
    match r {
        Ok(v) => Ok(v@),
        Err(e) => Err(e),
    }
}

/// Decides the first step of a search: reject the query, answer from the
/// cache, or ask for a fetch.
pub fn plan_search(cache: &PackageCache, query: &str) -> (r: SearchStep)
    ensures
        !is_valid_query(query@) ==> r == SearchStep::Rejected(
            SearchError::Query(QueryError::InvalidCharacters),
        ),
        is_valid_query(query@) && needs_fetch(cache@) ==> r is Fetch,
        is_valid_query(query@) && !needs_fetch(cache@) ==> r is Found && r->Found_0@ == matching(
            cache@->0,
            lowercase_of(query@),
        ),
{
    if !validate_string(query) {
        return SearchStep::Rejected(SearchError::Query(QueryError::InvalidCharacters));
    }
    match cache.cached() {
        Some(packages) => SearchStep::Found(search(&packages, query)),
        None => SearchStep::Fetch,
    }
}

/// Completes a search once the outcome of the fetch is known.
pub fn finish_search(
    cache: &mut PackageCache,
    query: &str,
    fetched: Result<Vec<Package>, RegistryError>,
) -> (r: Result<Vec<Package>, SearchError>)
    ensures
        final(cache)@ == search_next(old(cache)@, query@, fetched_view(fetched)),
        outcome_view(r) == search_outcome(old(cache)@, query@, fetched_view(fetched)),
{
    if !validate_string(query) {
        return Err(SearchError::Query(QueryError::InvalidCharacters));
    }
    match cache.complete_fetch(fetched) {
        Ok(packages) => Ok(search(&packages, query)),
        Err(e) => Err(SearchError::Registry(e)),
    }
}

/// Searches the catalogue for `query`: a query outside `[a-z0-9-]` is turned
/// away before the cache is touched; otherwise the catalogue comes from the
/// cache, or from one call of `fetch` when the cache is empty.
pub fn search_packages<F>(cache: &mut PackageCache, query: &str, fetch: F) -> (r: Result<
    Vec<Package>,
    SearchError,
>)
    where
        F: FnOnce() -> Result<Vec<Package>, RegistryError>,
    requires
        is_valid_query(query@) && needs_fetch(old(cache)@) ==> fetch.requires(()),
    ensures
        !(is_valid_query(query@) && needs_fetch(old(cache)@)) ==> {
            &&& final(cache)@ == old(cache)@
            &&& forall|any: Result<Seq<Package>, RegistryError>|
                outcome_view(r) == #[trigger] search_outcome(old(cache)@, query@, any)
        },
        is_valid_query(query@) && needs_fetch(old(cache)@) ==> exists|
            f: Result<Vec<Package>, RegistryError>,
        |
            {
                &&& #[trigger] fetch.ensures((), f)
                &&& final(cache)@ == search_next(old(cache)@, query@, fetched_view(f))
                &&& outcome_view(r) == search_outcome(old(cache)@, query@, fetched_view(f))
            },
{
    match plan_search(cache, query) {
        SearchStep::Rejected(e) => Err(e),
        SearchStep::Found(found) => Ok(found),
        SearchStep::Fetch => {
            let fetched = fetch();
            let ghost f = fetched;
            let r = finish_search(cache, query, fetched);
            assert(fetch.ensures((), f));
            r
        },
    }
}

} // verus!
