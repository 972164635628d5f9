use vstd::prelude::*;

verus! {

/// A failure while talking to the package registry.
#[derive(Debug, Clone, Copy, PartialEq, Eq)]
pub enum RegistryError {
    /// The request for a package's releases did not complete.
    PackageFetchFail,
    /// The releases of a package could not be decoded.
    PackageDecodeFail,
    /// A package has no releases at all.
    PackageListEmpty,
    /// The request for a package's documentation did not complete.
    DocsFetchFail,
    /// The documentation of a package could not be decoded.
    DocsDecodeFail,
    /// The request for the package catalogue did not complete.
    PackagesFetchFail,
    /// The package catalogue could not be decoded.
    PackagesDecodeFail,
}

/// The tag that reports each registry error.
pub open spec fn tag_of(e: RegistryError) -> Seq<char> {
    match e {
        RegistryError::PackageFetchFail => "PACKAGE_FETCH_FAIL"@,
        RegistryError::PackageDecodeFail => "PACKAGE_DECODE_FAIL"@,
        RegistryError::PackageListEmpty => "PACKAGE_LIST_EMPTY"@,
        RegistryError::DocsFetchFail => "DOCS_FETCH_FAIL"@,
        RegistryError::DocsDecodeFail => "DOCS_DECODE_FAIL"@,
        RegistryError::PackagesFetchFail => "PACKAGES_FETCH_FAIL"@,
        RegistryError::PackagesDecodeFail => "PACKAGES_DECODE_FAIL"@,
    }
}

impl RegistryError {
    /// The tag that reports this error.
    pub fn tag(&self) -> (r: &'static str)
        ensures
            r@ == tag_of(*self),
    {
        match self {
            RegistryError::PackageFetchFail => "PACKAGE_FETCH_FAIL",
            RegistryError::PackageDecodeFail => "PACKAGE_DECODE_FAIL",
            RegistryError::PackageListEmpty => "PACKAGE_LIST_EMPTY",
            RegistryError::DocsFetchFail => "DOCS_FETCH_FAIL",
            RegistryError::DocsDecodeFail => "DOCS_DECODE_FAIL",
            RegistryError::PackagesFetchFail => "PACKAGES_FETCH_FAIL",
            RegistryError::PackagesDecodeFail => "PACKAGES_DECODE_FAIL",
        }
    }
}

/// Where the package registry is served.
pub open spec fn registry_base() -> Seq<char> {
    "https://package.elm-lang.org"@
}

/// The address of the release list of `username/package`.
pub open spec fn releases_url_of(username: Seq<char>, package: Seq<char>) -> Seq<char> {
    registry_base() + "/packages/"@ + username + "/"@ + package + "/releases.json"@
}

/// The address of the documentation of one release of `username/package`.
pub open spec fn docs_url_of(username: Seq<char>, package: Seq<char>, version: Seq<char>) -> Seq<
    char,
> {
    registry_base() + "/packages/"@ + username + "/"@ + package + "/"@ + version + "/docs.json"@
}

/// The address of the whole package catalogue.
pub open spec fn search_url_of() -> Seq<char> {
    registry_base() + "/search.json"@
}

/// The address of the release list of `username/package`.
pub fn releases_url(username: &str, package: &str) -> (r: String)
    ensures
        r@ == releases_url_of(username@, package@),
{
    let mut url = "https://package.elm-lang.org".to_owned();
    url.append("/packages/");
    url.append(username);
    url.append("/");
    url.append(package);
    url.append("/releases.json");
    url
}

/// The address of the documentation of one release of `username/package`.
pub fn docs_url(username: &str, package: &str, version: &str) -> (r: String)
    ensures
        r@ == docs_url_of(username@, package@, version@),
{
    let mut url = "https://package.elm-lang.org".to_owned();
    url.append("/packages/");
    url.append(username);
    url.append("/");
    url.append(package);
    url.append("/");
    url.append(version);
    url.append("/docs.json");
    url
}

/// The address of the whole package catalogue.
pub fn search_url() -> (r: String)
    ensures
        r@ == search_url_of(),
{
    let mut url = "https://package.elm-lang.org".to_owned();
    url.append("/search.json");
    url
}

/// Position `i` holds the latest release: no release is newer, and every
/// release after it is strictly older.
pub open spec fn is_latest_at(releases: Seq<(String, u32)>, i: int) -> bool {
    &&& 0 <= i < releases.len()
    &&& forall|j: int| 0 <= j < releases.len() ==> #[trigger] releases[j].1 <= releases[i].1
    &&& forall|j: int| i < j < releases.len() ==> #[trigger] releases[j].1 < releases[i].1
}

/// The version of the most recently published release, given as pairs of
/// version and publication time; among equal times the last pair wins.
pub fn latest_release(releases: &Vec<(String, u32)>) -> (r: Result<String, RegistryError>)
    ensures
        releases@.len() == 0 <==> r is Err,
        r is Err ==> r == Err::<String, RegistryError>(RegistryError::PackageListEmpty),
        r is Ok ==> exists|i: int| is_latest_at(releases@, i) && r->Ok_0 == releases@[i].0,
{
    if releases.len() == 0 {
        return Err(RegistryError::PackageListEmpty);
    }
    let mut best: usize = 0;
    let mut i: usize = 1;
    while i < releases.len()
        invariant
            1 <= i <= releases@.len(),
            best < i,
            forall|j: int| 0 <= j < i ==> #[trigger] releases@[j].1 <= releases@[best as int].1,
            forall|j: int| best < j < i ==> #[trigger] releases@[j].1 < releases@[best as int].1,
        decreases releases.len() - i,
    {
        if releases[i].1 >= releases[best].1 {
            best = i;
        }
        i = i + 1;
    }
    let version = releases[best].0.clone();
    assert(is_latest_at(releases@, best as int));
    Ok(version)
}

} // verus!
