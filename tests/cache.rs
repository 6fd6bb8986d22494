use gensokyoradio::cache::{CacheDir, CacheError, Resolved};

#[test]
fn locator_maps_under_root() {
    let cache = CacheDir::new("/var/cache/gensokyoradio".to_string());
    let path = cache.locate("https://host/a/b.jpg").unwrap();
    assert_eq!(path, "/var/cache/gensokyoradio/a/b.jpg");
    assert!(path.ends_with("a/b.jpg"));
}

#[test]
fn root_with_trailing_separator() {
    let cache = CacheDir::new("/c/".to_string());
    assert_eq!(cache.locate("http://example.org/x/y/z.png?size=2").unwrap(), "/c/x/y/z.png");
}

#[test]
fn join_follows_path_rules() {
    let cache = CacheDir::new("/c".to_string());
    assert_eq!(cache.join("a/b"), "/c/a/b");
    assert_eq!(cache.join("/abs"), "/abs");
    assert_eq!(cache.join(""), "/c/");
    assert_eq!(CacheDir::new(String::new()).join("a"), "a");
    assert_eq!(cache.root_path(), "/c");
}

#[test]
fn bad_locators_are_errors() {
    let cache = CacheDir::new("/c".to_string());
    assert_eq!(cache.locate("not a url"), Err(CacheError::BadLocator));
    assert_eq!(cache.locate("mailto:someone"), Err(CacheError::NoRootedPath));
}

#[test]
fn double_separator_path_is_rejected() {
    let cache = CacheDir::new("/c".to_string());
    assert_eq!(cache.locate("https://host//etc/x"), Err(CacheError::OutsideRoot));
    assert_eq!(cache.resolve("https://host//etc/x", false), Err(CacheError::OutsideRoot));
}

#[test]
fn second_resolve_is_a_hit() {
    let cache = CacheDir::new("/c".to_string());
    let first = cache.resolve("https://host/a/b.jpg", false).unwrap();
    assert_eq!(first, Resolved { path: "/c/a/b.jpg".to_string(), fetch: true });
    let second = cache.resolve("https://host/a/b.jpg", true).unwrap();
    assert_eq!(second, Resolved { path: first.path.clone(), fetch: false });
}

#[test]
fn file_on_disk_needs_no_fetch() {
    let cache = CacheDir::new("/c".to_string());
    let r = cache.resolve("https://host/a/b.jpg", true).unwrap();
    assert!(!r.fetch);
    assert!(cache.resolve("https://host/a/b.jpg", false).unwrap().fetch);
    assert_eq!(cache.resolve("::", false), Err(CacheError::BadLocator));
}
