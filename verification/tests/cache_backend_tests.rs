use std::cell::Cell;

use cargo_backend::backend::{BackendArg, BackendType, CargoBackend};
use cargo_backend::cache::VersionListCache;
use cargo_backend::errors::Error;

fn arg(name: &str) -> BackendArg {
    BackendArg {
        name: name.to_string(),
        cache_path: "/tmp/cache/cargo-tool".to_string(),
    }
}

#[test]
fn get_or_compute_computes_exactly_once() {
    let mut cache = VersionListCache::new("k".to_string());
    let counter = Cell::new(0u32);
    let first = cache.get_or_compute(|| {
        counter.set(counter.get() + 1);
        Ok(vec!["1.0.0".to_string(), "1.1.0".to_string()])
    });
    let second = cache.get_or_compute(|| {
        counter.set(counter.get() + 1);
        Ok(vec!["other".to_string()])
    });
    assert_eq!(counter.get(), 1);
    assert_eq!(first, second);
    assert_eq!(first, Ok(vec!["1.0.0".to_string(), "1.1.0".to_string()]));
}

#[test]
fn failed_computation_is_not_cached() {
    let mut cache = VersionListCache::new("k".to_string());
    let counter = Cell::new(0u32);
    let first = cache.get_or_compute(|| {
        counter.set(counter.get() + 1);
        Err(Error::TransportFailure("offline".to_string()))
    });
    assert_eq!(first, Err(Error::TransportFailure("offline".to_string())));
    assert_eq!(*cache.cached(), None);
    let second = cache.get_or_compute(|| {
        counter.set(counter.get() + 1);
        Ok(vec!["2.0.0".to_string()])
    });
    assert_eq!(counter.get(), 2);
    assert_eq!(second, Ok(vec!["2.0.0".to_string()]));
}

#[test]
fn seeding_fills_only_an_empty_cache() {
    let mut cache = VersionListCache::new("k".to_string());
    cache.seed_persisted(vec!["0.9.0".to_string()]);
    assert_eq!(*cache.cached(), Some(vec!["0.9.0".to_string()]));
    cache.seed_persisted(vec!["ignored".to_string()]);
    assert_eq!(*cache.cached(), Some(vec!["0.9.0".to_string()]));
    let r = cache.get_or_compute(|| Ok(vec!["unused".to_string()]));
    assert_eq!(r, Ok(vec!["0.9.0".to_string()]));
}

#[test]
fn from_arg_derives_the_cache_location() {
    let backend = CargoBackend::from_arg(arg("ripgrep"));
    assert_eq!(backend.ba.name, "ripgrep");
    assert_eq!(
        backend.remote_version_cache.cache_location,
        "/tmp/cache/cargo-tool/remote_versions-$KEY.msgpack.z"
    );
    assert_eq!(*backend.remote_version_cache.cached(), None);
}

#[test]
fn backend_identity() {
    let backend = CargoBackend::from_arg(arg("ripgrep"));
    assert_eq!(backend.get_type(), BackendType::Cargo);
    assert_eq!(backend.fa().name, "ripgrep");
    assert_eq!(backend.name(), "ripgrep");
    assert_eq!(
        backend.get_dependencies(),
        vec!["cargo".to_string(), "rust".to_string()]
    );
}

#[test]
fn binstall_needs_configuration_and_availability() {
    let backend = CargoBackend::from_arg(arg("ripgrep"));
    assert!(backend.is_binstall_enabled(true, true));
    assert!(!backend.is_binstall_enabled(true, false));
    assert!(!backend.is_binstall_enabled(false, true));
    assert!(!backend.is_binstall_enabled(false, false));
}

#[test]
fn git_shorthand_lists_head_without_fetching() {
    let mut backend = CargoBackend::from_arg(arg("eza-community/eza"));
    let fetched = Cell::new(false);
    let r = backend._list_remote_versions(|_u: &str| {
        fetched.set(true);
        Ok(String::new())
    });
    assert_eq!(r, Ok(vec!["HEAD".to_string()]));
    assert!(!fetched.get());
    assert_eq!(*backend.remote_version_cache.cached(), None);
}

#[test]
fn git_url_lists_head_without_fetching() {
    let mut backend = CargoBackend::from_arg(arg("https://github.com/eza-community/eza.git"));
    let fetched = Cell::new(false);
    let r = backend._list_remote_versions(|_u: &str| {
        fetched.set(true);
        Ok(String::new())
    });
    assert_eq!(r, Ok(vec!["HEAD".to_string()]));
    assert!(!fetched.get());
}

#[test]
fn registry_listing_fetches_the_index_document() {
    let mut backend = CargoBackend::from_arg(arg("ripgrep"));
    let seen_url = Cell::new(String::new());
    let r = backend._list_remote_versions(|u: &str| {
        seen_url.set(u.to_string());
        Ok(r#"{"vers":"13.0.0","yanked":false} {"vers":"14.0.0","yanked":true}
           {"vers":"14.1.0","yanked":false}"#
            .to_string())
    });
    assert_eq!(seen_url.take(), "https://index.crates.io/ri/pg/ripgrep");
    assert_eq!(r, Ok(vec!["13.0.0".to_string(), "14.1.0".to_string()]));
    assert_eq!(
        *backend.remote_version_cache.cached(),
        Some(vec!["13.0.0".to_string(), "14.1.0".to_string()])
    );
}

#[test]
fn registry_listing_is_cached_across_calls() {
    let mut backend = CargoBackend::from_arg(arg("ripgrep"));
    let calls = Cell::new(0u32);
    let doc = r#"{"vers":"13.0.0","yanked":false}"#;
    let first = backend._list_remote_versions(|_u: &str| {
        calls.set(calls.get() + 1);
        Ok(doc.to_string())
    });
    let second = backend._list_remote_versions(|_u: &str| {
        calls.set(calls.get() + 1);
        Ok(doc.to_string())
    });
    assert_eq!(calls.get(), 1);
    assert_eq!(first, second);
    assert_eq!(first, Ok(vec!["13.0.0".to_string()]));
}

#[test]
fn transport_failure_propagates_and_nothing_is_cached() {
    let mut backend = CargoBackend::from_arg(arg("ripgrep"));
    let r = backend
        ._list_remote_versions(|_u: &str| Err(Error::TransportFailure("offline".to_string())));
    assert_eq!(r, Err(Error::TransportFailure("offline".to_string())));
    assert_eq!(*backend.remote_version_cache.cached(), None);
}

#[test]
fn decode_failure_propagates_and_nothing_is_cached() {
    let mut backend = CargoBackend::from_arg(arg("ripgrep"));
    let r = backend._list_remote_versions(|_u: &str| Ok("not json".to_string()));
    assert!(matches!(r, Err(Error::DecodeFailure(_))));
    assert_eq!(*backend.remote_version_cache.cached(), None);
}

#[test]
fn invalid_version_description_enumerates_the_accepted_forms() {
    let d = Error::InvalidVersionSpec("1.2.3".to_string()).describe();
    assert_eq!(
        d,
        "invalid git version: specify \"rev:\", \"branch:\", or \"tag:\", or \"HEAD\""
    );
    assert!(d.contains("rev:"));
    assert!(d.contains("branch:"));
    assert!(d.contains("tag:"));
}

#[test]
fn error_descriptions_are_not_empty() {
    let errors = vec![
        Error::TransportFailure("x".to_string()),
        Error::DecodeFailure("x".to_string()),
        Error::MalformedLocator,
        Error::InvalidVersionSpec("x".to_string()),
        Error::ExperimentalFeatureDisabled,
        Error::ExecutionFailure("x".to_string()),
    ];
    for e in errors {
        assert!(!e.describe().is_empty());
    }
}
