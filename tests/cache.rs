use loader_cache::{LoaderCache, LoaderKey, LoaderResolver, SharedLoaderCache};
use std::cell::Cell;

#[derive(Debug, PartialEq)]
struct SwcLoader {
    syntax: String,
}

fn build_swc(key: &LoaderKey) -> Result<SwcLoader, String> {
    let v: serde_json::Value = serde_json::from_str(&key.options).map_err(|e| e.to_string())?;
    let syntax = v
        .get("jsc")
        .and_then(|j| j.get("parser"))
        .and_then(|p| p.get("syntax"))
        .and_then(|s| s.as_str())
        .unwrap_or("ecmascript")
        .to_string();
    Ok(SwcLoader { syntax })
}

const TS_OPTIONS: &str = r#"{ "jsc": { "parser": { "syntax": "typescript" } } }"#;
const ES_OPTIONS: &str = r#"{ "jsc": { "parser": { "syntax": "ecmascript" } } }"#;

#[test]
fn swc_loader_identical_options_hit_then_new_options_construct() {
    let built = Cell::new(0u32);
    let construct = |k: &LoaderKey| {
        built.set(built.get() + 1);
        build_swc(k)
    };
    let mut cache = LoaderCache::new();
    let a = cache
        .get_or_construct(LoaderKey::new("builtin:swc-loader", TS_OPTIONS), &construct)
        .unwrap();
    assert_eq!(built.get(), 1);
    let b = cache
        .get_or_construct(LoaderKey::new("builtin:swc-loader", TS_OPTIONS), &construct)
        .unwrap();
    assert_eq!(built.get(), 1);
    assert_eq!(a.get(), b.get());
    assert_eq!(a.get().syntax, "typescript");
    let c = cache
        .get_or_construct(LoaderKey::new("builtin:swc-loader", ES_OPTIONS), &construct)
        .unwrap();
    assert_eq!(built.get(), 2);
    assert_eq!(c.get().syntax, "ecmascript");
    assert_eq!(cache.len(), 2);
}

#[test]
fn repeat_request_returns_same_loader_without_construction() {
    let built = Cell::new(0u32);
    let construct = |k: &LoaderKey| {
        built.set(built.get() + 1);
        Ok::<String, ()>(format!("{}#{}", k.name, built.get()))
    };
    let mut cache = LoaderCache::new();
    let first = cache.get_or_construct(LoaderKey::new("a", "{}"), &construct).unwrap();
    let second = cache.get_or_construct(LoaderKey::new("a", "{}"), &construct).unwrap();
    assert_eq!(first.get(), "a#1");
    assert_eq!(second.get(), "a#1");
    assert_eq!(built.get(), 1);
}

#[test]
fn first_request_misses_and_later_ones_hit() {
    let built = Cell::new(0u32);
    let construct = |k: &LoaderKey| {
        built.set(built.get() + 1);
        Ok::<String, ()>(k.name.clone())
    };
    let mut cache = LoaderCache::new();
    let key = LoaderKey::new("x", "1");
    assert!(!cache.contains(&key));
    cache.get_or_construct(key.clone(), &construct).unwrap();
    assert_eq!(built.get(), 1);
    assert!(cache.contains(&key));
    for other in ["y", "z", "w"] {
        cache.get_or_construct(LoaderKey::new(other, "1"), &construct).unwrap();
    }
    assert_eq!(built.get(), 4);
    for _ in 0..5 {
        let h = cache.get_or_construct(key.clone(), &construct).unwrap();
        assert_eq!(h.get(), "x");
    }
    assert_eq!(built.get(), 4);
    assert_eq!(cache.len(), 4);
}

#[test]
fn keys_differing_in_configuration_get_entries_of_their_own() {
    let built = Cell::new(0u32);
    let construct = |k: &LoaderKey| {
        built.set(built.get() + 1);
        Ok::<String, ()>(k.options.clone())
    };
    let mut cache = LoaderCache::new();
    let a = cache.get_or_construct(LoaderKey::new("l", "{\"a\":1}"), &construct).unwrap();
    let b = cache.get_or_construct(LoaderKey::new("l", "{\"a\": 1}"), &construct).unwrap();
    assert_eq!(built.get(), 2);
    assert_eq!(a.get(), "{\"a\":1}");
    assert_eq!(b.get(), "{\"a\": 1}");
    assert_eq!(cache.len(), 2);
}

#[test]
fn failed_construction_is_not_stored_and_is_retried() {
    let built = Cell::new(0u32);
    let construct = |k: &LoaderKey| {
        built.set(built.get() + 1);
        build_swc(k)
    };
    let mut cache = LoaderCache::new();
    let key = LoaderKey::new("builtin:swc-loader", "{ not json");
    assert!(cache.get_or_construct(key.clone(), &construct).is_err());
    assert!(!cache.contains(&key));
    assert_eq!(cache.len(), 0);
    assert!(cache.get_or_construct(key.clone(), &construct).is_err());
    assert_eq!(built.get(), 2);
}

#[test]
fn insert_replaces_a_raced_entry() {
    let mut cache = LoaderCache::new();
    let key = LoaderKey::new("k", "o");
    cache.insert(key.clone(), loader_cache::LoaderHandle::new(1u32));
    cache.insert(key.clone(), loader_cache::LoaderHandle::new(2u32));
    assert_eq!(cache.len(), 1);
    assert_eq!(*cache.lookup(&key).unwrap().get(), 2);
    assert!(cache.lookup(&LoaderKey::new("k", "p")).is_none());
}

#[test]
fn key_comparison_needs_both_parts_equal() {
    let a = LoaderKey::new("n", "o");
    assert!(a.same_as(&LoaderKey::new("n", "o")));
    assert!(!a.same_as(&LoaderKey::new("n", "p")));
    assert!(!a.same_as(&LoaderKey::new("m", "o")));
}

#[test]
fn handles_share_one_loader() {
    let h = loader_cache::LoaderHandle::new(String::from("swc"));
    let g = h.share();
    assert!(std::ptr::eq(h.get(), g.get()));
}

#[test]
fn resolver_declines_names_outside_its_namespace() {
    let built = Cell::new(0u32);
    let construct = |k: &LoaderKey| {
        built.set(built.get() + 1);
        build_swc(k)
    };
    let resolver = LoaderResolver::new("builtin:");
    let mut cache = LoaderCache::new();
    let r = resolver.resolve_loader(&mut cache, "babel-loader", Some(TS_OPTIONS), &construct);
    assert!(matches!(r, Ok(None)));
    let r = resolver.resolve_loader(&mut cache, "builtin", None, &construct);
    assert!(matches!(r, Ok(None)));
    assert_eq!(cache.len(), 0);
    assert_eq!(built.get(), 0);
}

#[test]
fn resolver_answers_owned_names_through_the_cache() {
    let built = Cell::new(0u32);
    let construct = |k: &LoaderKey| {
        built.set(built.get() + 1);
        build_swc(k)
    };
    let resolver = LoaderResolver::new("builtin:");
    let mut cache = LoaderCache::new();
    let a = resolver
        .resolve_loader(&mut cache, "builtin:swc-loader", Some(TS_OPTIONS), &construct)
        .unwrap()
        .unwrap();
    let b = resolver
        .resolve_loader(&mut cache, "builtin:swc-loader", Some(TS_OPTIONS), &construct)
        .unwrap()
        .unwrap();
    assert_eq!(a.get().syntax, "typescript");
    assert_eq!(b.get().syntax, "typescript");
    assert_eq!(built.get(), 1);
    let bad = resolver.resolve_loader(&mut cache, "builtin:swc-loader", Some("{"), &construct);
    assert!(bad.is_err());
    assert_eq!(cache.len(), 1);
}

#[test]
fn request_without_configuration_uses_empty_blob() {
    let construct = |k: &LoaderKey| Ok::<usize, ()>(k.options.len());
    let resolver = LoaderResolver::new("builtin:");
    let mut cache = LoaderCache::new();
    let h = resolver
        .resolve_loader(&mut cache, "builtin:lightningcss-loader", None, &construct)
        .unwrap()
        .unwrap();
    assert_eq!(*h.get(), 0);
    assert!(cache.contains(&LoaderKey::new("builtin:lightningcss-loader", "")));
}

#[test]
fn namespace_is_a_byte_prefix() {
    let resolver = LoaderResolver::new("builtin:");
    assert!(resolver.owns("builtin:swc-loader"));
    assert!(resolver.owns("builtin:"));
    assert!(!resolver.owns("builtin"));
    assert!(!resolver.owns("Builtin:swc-loader"));
    assert!(!resolver.owns(""));
    assert!(LoaderResolver::new("").owns("anything"));
}

#[test]
fn shared_cache_constructs_once_per_key() {
    let built = Cell::new(0u32);
    let cache = SharedLoaderCache::new(|k: &LoaderKey| {
        built.set(built.get() + 1);
        build_swc(k)
    });
    let a = cache.get_or_construct(LoaderKey::new("builtin:swc-loader", TS_OPTIONS)).unwrap();
    let b = cache.get_or_construct(LoaderKey::new("builtin:swc-loader", TS_OPTIONS)).unwrap();
    assert!(std::ptr::eq(a.get(), b.get()));
    let c = cache.get_or_construct(LoaderKey::new("builtin:swc-loader", ES_OPTIONS)).unwrap();
    assert_eq!(c.get().syntax, "ecmascript");
    assert!(cache.get_or_construct(LoaderKey::new("builtin:swc-loader", "[")).is_err());
    assert!(cache.get_or_construct(LoaderKey::new("builtin:swc-loader", "[")).is_err());
    assert_eq!(built.get(), 4);
}

#[test]
fn shared_resolver_declines_and_delegates() {
    let built = Cell::new(0u32);
    let cache = SharedLoaderCache::new(|k: &LoaderKey| {
        built.set(built.get() + 1);
        build_swc(k)
    });
    let resolver = LoaderResolver::new("builtin:swc-loader");
    assert!(matches!(resolver.resolve_loader_shared(&cache, "sass-loader", None), Ok(None)));
    assert_eq!(built.get(), 0);
    let h = resolver
        .resolve_loader_shared(&cache, "builtin:swc-loader", Some(TS_OPTIONS))
        .unwrap()
        .unwrap();
    assert_eq!(h.get().syntax, "typescript");
    resolver.resolve_loader_shared(&cache, "builtin:swc-loader", Some(TS_OPTIONS)).unwrap();
    assert_eq!(built.get(), 1);
}

#[test]
fn resolver_constructs_again_after_a_failed_construction() {
    let built = Cell::new(0u32);
    let construct = |k: &LoaderKey| {
        built.set(built.get() + 1);
        build_swc(k)
    };
    let resolver = LoaderResolver::new("builtin:");
    let mut cache = LoaderCache::new();
    let first = resolver.resolve_loader(&mut cache, "builtin:swc-loader", Some("{"), &construct);
    assert!(first.is_err());
    assert_eq!(cache.len(), 0);
    let second = resolver.resolve_loader(&mut cache, "builtin:swc-loader", Some("{"), &construct);
    assert!(second.is_err());
    assert_eq!(built.get(), 2);
}

#[test]
fn shared_lookup_sees_only_stored_loaders() {
    let cache = SharedLoaderCache::new(build_swc);
    let key = LoaderKey::new("builtin:swc-loader", TS_OPTIONS);
    assert!(cache.lookup(&key).is_none());
    let h = cache.get_or_construct(key.clone()).unwrap();
    let g = cache.lookup(&key).unwrap();
    assert!(std::ptr::eq(h.get(), g.get()));
    assert!(cache.lookup(&LoaderKey::new("builtin:swc-loader", ES_OPTIONS)).is_none());
}
