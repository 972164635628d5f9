use std::sync::atomic::{AtomicUsize, Ordering};
use std::sync::Arc;

use elm_mcp::cache::PackageCache;
use elm_mcp::package::Package;
use elm_mcp::query::QueryError;
use elm_mcp::registry::RegistryError;
use elm_mcp::service::{finish_search, plan_search, search_packages, SearchError, SearchStep};

fn pkg(name: &str) -> Package {
    Package {
        name: name.to_string(),
        summary: String::new(),
        license: "MIT".to_string(),
        version: "1.0.0".to_string(),
    }
}

fn catalogue() -> Vec<Package> {
    vec![pkg("elm-ui"), pkg("json-decode"), pkg("http")]
}

#[test]
fn second_populate_does_not_fetch() {
    let mut cache = PackageCache::new();
    let mut fetches = 0;
    let first = cache.get_or_populate(|| {
        fetches += 1;
        Ok(catalogue())
    });
    assert_eq!(first, Ok(catalogue()));
    let second = cache.get_or_populate(|| {
        fetches += 1;
        Ok(vec![pkg("other")])
    });
    assert_eq!(second, Ok(catalogue()));
    assert_eq!(fetches, 1);
    assert!(cache.is_populated());
    assert_eq!(cache.cached(), Some(catalogue()));
}

#[test]
fn failed_fetch_is_retried() {
    let mut cache = PackageCache::new();
    let mut fetches = 0;
    let first = cache.get_or_populate(|| {
        fetches += 1;
        Err(RegistryError::PackagesFetchFail)
    });
    assert_eq!(first, Err(RegistryError::PackagesFetchFail));
    assert!(!cache.is_populated());
    assert_eq!(cache.cached(), None);
    let second = cache.get_or_populate(|| {
        fetches += 1;
        Ok(catalogue())
    });
    assert_eq!(second, Ok(catalogue()));
    assert_eq!(fetches, 2);
    assert!(cache.is_populated());
}

#[test]
fn decode_failure_leaves_cache_empty() {
    let mut cache = PackageCache::new();
    let r = cache.complete_fetch(Err(RegistryError::PackagesDecodeFail));
    assert_eq!(r, Err(RegistryError::PackagesDecodeFail));
    assert!(!cache.is_populated());
}

#[test]
fn complete_fetch_keeps_existing_collection() {
    let mut cache = PackageCache::new();
    assert_eq!(cache.complete_fetch(Ok(catalogue())), Ok(catalogue()));
    assert_eq!(cache.complete_fetch(Ok(vec![pkg("other")])), Ok(catalogue()));
    assert_eq!(cache.complete_fetch(Err(RegistryError::PackagesFetchFail)), Ok(catalogue()));
    assert_eq!(cache.cached(), Some(catalogue()));
}

#[test]
fn empty_remote_collection_is_cached() {
    let mut cache = PackageCache::new();
    let mut fetches = 0;
    let r = search_packages(&mut cache, "x", || {
        fetches += 1;
        Ok(vec![])
    });
    assert_eq!(r, Ok(vec![]));
    let r = search_packages(&mut cache, "x", || {
        fetches += 1;
        Ok(catalogue())
    });
    assert_eq!(r, Ok(vec![]));
    assert_eq!(fetches, 1);
}

#[test]
fn invalid_query_is_rejected_before_fetch() {
    let mut cache = PackageCache::new();
    let mut fetches = 0;
    let r = search_packages(&mut cache, "Json", || {
        fetches += 1;
        Ok(catalogue())
    });
    assert_eq!(r, Err(SearchError::Query(QueryError::InvalidCharacters)));
    assert_eq!(fetches, 0);
    assert!(!cache.is_populated());
    assert_eq!(
        SearchError::Query(QueryError::InvalidCharacters).message(),
        "Allowed characters: digits (0-9), lowercase letters (a-z), hyphen (-)"
    );
}

#[test]
fn search_packages_filters_cached_catalogue() {
    let mut cache = PackageCache::new();
    let r = search_packages(&mut cache, "json", || Ok(catalogue()));
    assert_eq!(r, Ok(vec![pkg("json-decode")]));
    let r = search_packages(&mut cache, "h", || Err(RegistryError::PackagesFetchFail));
    assert_eq!(r, Ok(vec![pkg("http")]));
}

#[test]
fn search_reports_fetch_failure() {
    let mut cache = PackageCache::new();
    let r = search_packages(&mut cache, "json", || Err(RegistryError::PackagesFetchFail));
    assert_eq!(r, Err(SearchError::Registry(RegistryError::PackagesFetchFail)));
    assert_eq!(
        SearchError::Registry(RegistryError::PackagesFetchFail).message(),
        "PACKAGES_FETCH_FAIL"
    );
    assert!(!cache.is_populated());
}

#[test]
fn plan_search_steps() {
    let mut cache = PackageCache::new();
    assert!(matches!(plan_search(&cache, "a b"), SearchStep::Rejected(SearchError::Query(_))));
    assert!(matches!(plan_search(&cache, "json"), SearchStep::Fetch));
    let r = finish_search(&mut cache, "json", Ok(catalogue()));
    assert_eq!(r, Ok(vec![pkg("json-decode")]));
    match plan_search(&cache, "elm") {
        SearchStep::Found(found) => assert_eq!(found, vec![pkg("elm-ui")]),
        _ => panic!("expected an answer from the cache"),
    }
}

#[test]
fn finish_search_rejects_invalid_query_without_storing() {
    let mut cache = PackageCache::new();
    let r = finish_search(&mut cache, "A", Ok(catalogue()));
    assert_eq!(r, Err(SearchError::Query(QueryError::InvalidCharacters)));
    assert!(!cache.is_populated());
}

#[test]
fn concurrent_first_callers_fetch_once() {
    let runtime = tokio::runtime::Builder::new_multi_thread()
        .worker_threads(2)
        .enable_all()
        .build()
        .unwrap();
    let fetches = Arc::new(AtomicUsize::new(0));
    let cache = Arc::new(tokio::sync::Mutex::new(PackageCache::new()));
    let results = runtime.block_on(async {
        let mut handles = Vec::new();
        for _ in 0..2 {
            let cache = cache.clone();
            let fetches = fetches.clone();
            handles.push(tokio::spawn(async move {
                let mut guard = cache.lock().await;
                match plan_search(&guard, "") {
                    SearchStep::Rejected(e) => Err(e),
                    SearchStep::Found(found) => Ok(found),
                    SearchStep::Fetch => {
                        fetches.fetch_add(1, Ordering::SeqCst);
                        tokio::time::sleep(std::time::Duration::from_millis(50)).await;
                        finish_search(&mut guard, "", Ok(catalogue()))
                    }
                }
            }));
        }
        let mut results = Vec::new();
        for h in handles {
            results.push(h.await.unwrap());
        }
        results
    });
    assert_eq!(fetches.load(Ordering::SeqCst), 1);
    assert_eq!(results[0], Ok(catalogue()));
    assert_eq!(results[1], Ok(catalogue()));
}
