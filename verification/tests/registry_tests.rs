//! The connection registry: one live handle per path, eviction, and the
//! no-op release.

use sqlworkbench::registry::ConnectionRegistry;

#[test]
fn acquire_twice_returns_same_handle() {
    let mut registry = ConnectionRegistry::new();
    let path = "/tmp/sqlite/my.db".to_string();
    let key = Some("123456".to_string());
    let (h1, opened1) = registry.open_db_connections(&path, &key);
    let (h2, opened2) = registry.open_db_connections(&path, &key);
    assert!(opened1);
    assert!(!opened2);
    assert_eq!(h1, h2);
}

#[test]
fn acquire_ignores_key_on_cache_hit() {
    let mut registry = ConnectionRegistry::new();
    let path = "/tmp/sqlite/my.db".to_string();
    let (h1, _) = registry.open_db_connections(&path, &Some("123456".to_string()));
    let (h2, opened2) = registry.open_db_connections(&path, &Some("other-key".to_string()));
    assert_eq!(h1, h2);
    assert!(!opened2);
}

#[test]
fn distinct_paths_get_distinct_handles() {
    let mut registry = ConnectionRegistry::new();
    let (h1, _) = registry.open_db_connections(&"/tmp/a.db".to_string(), &None);
    let (h2, _) = registry.open_db_connections(&"/tmp/b.db".to_string(), &None);
    assert_ne!(h1, h2);
    assert_eq!(registry.cached_handle(&"/tmp/a.db".to_string()), Some(h1));
    assert_eq!(registry.cached_handle(&"/tmp/b.db".to_string()), Some(h2));
}

#[test]
fn release_of_uncached_path_is_noop() {
    let mut registry = ConnectionRegistry::new();
    let (h1, _) = registry.open_db_connections(&"/tmp/a.db".to_string(), &None);
    registry.remove_db_connection(&"/tmp/never-opened.db".to_string());
    assert_eq!(registry.cached_handle(&"/tmp/a.db".to_string()), Some(h1));
    assert_eq!(registry.cached_handle(&"/tmp/never-opened.db".to_string()), None);
}

#[test]
fn release_evicts_and_reacquire_opens_fresh() {
    let mut registry = ConnectionRegistry::new();
    let path = "/tmp/sqlite/my.db".to_string();
    let (h1, _) = registry.open_db_connections(&path, &None);
    registry.remove_db_connection(&path);
    assert_eq!(registry.cached_handle(&path), None);
    let (h2, opened2) = registry.open_db_connections(&path, &None);
    assert!(opened2);
    assert_ne!(h1, h2);
}
