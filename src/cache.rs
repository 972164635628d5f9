use vstd::prelude::*;
use crate::package::{duplicate_all, Package};
use crate::registry::RegistryError;

verus! {

/// A fetch outcome seen through the contents of its collection.
pub open spec fn fetched_view(f: Result<Vec<Package>, RegistryError>) -> Result<
    Seq<Package>,
    RegistryError,
> {
    match f {
        Ok(v) => Ok(v@),
        Err(e) => Err(e),
    }
}

/// A cell that holds nothing yet must fetch before it can answer.
pub open spec fn needs_fetch(cell: Option<Seq<Package>>) -> bool {
    cell is None
}

/// What a cell holds after a request that was answered with `fetched`
/// (the fetch outcome is looked at only when the cell was empty).
pub open spec fn populate_next(
    cell: Option<Seq<Package>>,
    fetched: Result<Seq<Package>, RegistryError>,
) -> Option<Seq<Package>> {
    match cell {
        Some(c) => Some(c),
        None => match fetched {
            Ok(v) => Some(v),
            Err(_) => None,
        },
    }
}

/// What a request to the cell returns, given the fetch outcome it would see.
pub open spec fn populate_result(
    cell: Option<Seq<Package>>,
    fetched: Result<Seq<Package>, RegistryError>,
) -> Result<Seq<Package>, RegistryError> {
    match cell {
        Some(c) => Ok(c),
        None => fetched,
    }
}

/// A read-through cache of the package catalogue: empty until a fetch
/// succeeds, and never cleared or refreshed after that.
pub struct PackageCache {
    packages: Option<Vec<Package>>,
}

impl View for PackageCache {
    type V = Option<Seq<Package>>;

    closed spec fn view(&self) -> Option<Seq<Package>> {
        match self.packages {
            Some(v) => Some(v@),
            None => None,
        }
    }
}

impl PackageCache {
    /// An empty cache.
    pub fn new() -> (r: PackageCache)
        ensures
            r@ is None,
    {
        PackageCache { packages: None }
    }

    /// Whether a collection is stored.
    pub fn is_populated(&self) -> (r: bool)
        ensures
            r == (self@ is Some),
    {
        self.packages.is_some()
    }

    /// A copy of the stored collection, if any.
    pub fn cached(&self) -> (r: Option<Vec<Package>>)
        ensures
            r is None <==> self@ is None,
            r is Some ==> self@ == Some(r->0@),
    {
        match &self.packages {
            Some(v) => Some(duplicate_all(v)),
            None => None,
        }
    }

    /// Takes the outcome of a fetch of the catalogue. An empty cell stores a
    /// fetched collection and stays empty after a failure, which is handed
    /// back; a populated cell keeps its collection and returns it.
    pub fn complete_fetch(&mut self, fetched: Result<Vec<Package>, RegistryError>) -> (r: Result<
        Vec<Package>,
        RegistryError,
    >)
        ensures
            final(self)@ == populate_next(old(self)@, fetched_view(fetched)),
            fetched_view(r) == populate_result(old(self)@, fetched_view(fetched)),
    {
        match &self.packages {
            Some(v) => Ok(duplicate_all(v)),
            None => match fetched {
                Ok(v) => {
                    let stored = duplicate_all(&v);
                    self.packages = Some(stored);
                    Ok(v)
                },
                Err(e) => Err(e),
            },
        }
    }

    /// Returns the stored collection, or, when there is none, calls `fetch`
    /// once and keeps what it returned if it succeeded.
    pub fn get_or_populate<F>(&mut self, fetch: F) -> (r: Result<Vec<Package>, RegistryError>)
        where
            F: FnOnce() -> Result<Vec<Package>, RegistryError>,
        requires
            needs_fetch(old(self)@) ==> fetch.requires(()),
        ensures
            !needs_fetch(old(self)@) ==> final(self)@ == old(self)@ && fetched_view(r) == Ok::<
                Seq<Package>,
                RegistryError,
            >(old(self)@->0),
            needs_fetch(old(self)@) ==> exists|f: Result<Vec<Package>, RegistryError>|
                {
                    &&& #[trigger] fetch.ensures((), f)
                    &&& final(self)@ == populate_next(old(self)@, fetched_view(f))
                    &&& fetched_view(r) == populate_result(old(self)@, fetched_view(f))
                },
    {
        if let Some(v) = &self.packages {
            return Ok(duplicate_all(v));
        }
        let fetched = fetch();
        let ghost f = fetched;
        let r = self.complete_fetch(fetched);
        assert(fetch.ensures((), f));
        r
    }
}

/// Once a fetch has succeeded, the cell answers every later request with the
/// same collection and never fetches again, whatever a fetch would return.
pub proof fn lemma_populated_cache_is_stable(
    cell: Option<Seq<Package>>,
    first: Result<Seq<Package>, RegistryError>,
    later: Result<Seq<Package>, RegistryError>,
)
    requires
        populate_result(cell, first) is Ok,
    ensures
        !needs_fetch(populate_next(cell, first)),
        populate_next(populate_next(cell, first), later) == populate_next(cell, first),
        populate_result(populate_next(cell, first), later) == populate_result(cell, first),
{
}

/// A failed fetch leaves an empty cell empty, so the next request fetches again.
pub proof fn lemma_failed_fetch_is_retried(
    cell: Option<Seq<Package>>,
    err: RegistryError,
    later: Result<Seq<Package>, RegistryError>,
)
    requires
        needs_fetch(cell),
    ensures
        populate_next(cell, Err(err)) == cell,
        populate_result(cell, Err(err)) == Err::<Seq<Package>, RegistryError>(err),
        needs_fetch(populate_next(cell, Err(err))),
        populate_result(populate_next(cell, Err(err)), later) == later,
{
}

/// Two requests on an empty cell, one after the other under its lock: when the
/// first fetch succeeds, exactly one of them fetches and both see the same
/// collection.
pub proof fn lemma_serialized_first_callers_fetch_once(
    first: Result<Seq<Package>, RegistryError>,
    second: Result<Seq<Package>, RegistryError>,
)
    requires
        first is Ok,
    ensures
        ({
            let start = None::<Seq<Package>>;
            let mid = populate_next(start, first);
            &&& needs_fetch(start)
            &&& !needs_fetch(mid)
            &&& populate_result(mid, second) == populate_result(start, first)
            &&& populate_result(start, first) == first
        }),
{
}

} // verus!
