use page_server::path::{chars_of, escapes_root_path, has_parent_segment, starts_with, unescape_path};
use page_server::route::{mount_root, route, Method, Mount, Route};

fn static_of(r: Route) -> Option<(Mount, String)> {
    match r {
        Route::Static { mount, rel } => Some((mount, rel)),
        _ => None,
    }
}

#[test]
fn get_root_is_page() {
    assert!(matches!(route(Method::Get, "/"), Route::Page));
}

#[test]
fn get_root_is_page_every_time() {
    for _ in 0..100 {
        assert!(matches!(route(Method::Get, "/"), Route::Page));
    }
}

#[test]
fn other_methods_on_root_not_found() {
    for m in [Method::Head, Method::Post, Method::Put, Method::Delete, Method::Patch, Method::Options, Method::Other] {
        assert!(matches!(route(m, "/"), Route::NotFound));
    }
}

#[test]
fn asset_path_strips_prefix() {
    assert_eq!(
        static_of(route(Method::Get, "/assets/css/site.css")),
        Some((Mount::Assets, "css/site.css".to_string()))
    );
}

#[test]
fn app_path_strips_prefix() {
    assert_eq!(
        static_of(route(Method::Get, "/app/index.js")),
        Some((Mount::App, "index.js".to_string()))
    );
}

#[test]
fn app_missing_file_goes_to_app_directory() {
    assert_eq!(
        static_of(route(Method::Get, "/app/does-not-exist.txt")),
        Some((Mount::App, "does-not-exist.txt".to_string()))
    );
}

#[test]
fn mount_prefix_alone_routes_empty_path() {
    assert_eq!(static_of(route(Method::Get, "/assets/")), Some((Mount::Assets, String::new())));
}

#[test]
fn post_to_asset_not_found() {
    assert!(matches!(route(Method::Post, "/assets/a.css"), Route::NotFound));
}

#[test]
fn traversal_out_of_assets_not_found() {
    assert!(matches!(route(Method::Get, "/assets/../../etc/passwd"), Route::NotFound));
}

#[test]
fn traversal_out_of_app_not_found() {
    assert!(matches!(route(Method::Get, "/app/../Cargo.toml"), Route::NotFound));
    assert!(matches!(route(Method::Get, "/app/a/b/../../../x"), Route::NotFound));
    assert!(matches!(route(Method::Get, "/app/.."), Route::NotFound));
}

#[test]
fn backslash_is_part_of_a_file_name() {
    assert_eq!(
        static_of(route(Method::Get, "/assets/x\\..\\y")),
        Some((Mount::Assets, "x\\..\\y".to_string()))
    );
    assert_eq!(
        static_of(route(Method::Get, "/assets/..\\secret")),
        Some((Mount::Assets, "..\\secret".to_string()))
    );
}

#[test]
fn escaped_traversal_not_found() {
    assert!(matches!(route(Method::Get, "/assets/%2e%2e/%2e%2e/etc/passwd"), Route::NotFound));
    assert!(matches!(route(Method::Get, "/assets/%2E%2E/etc/passwd"), Route::NotFound));
    assert!(matches!(route(Method::Get, "/assets/.%2e/x"), Route::NotFound));
    assert!(matches!(route(Method::Get, "/app/a%2f..%2fb"), Route::NotFound));
    assert!(matches!(route(Method::Get, "/app/..%2Fsecret"), Route::NotFound));
}

#[test]
fn escaped_dots_inside_a_name_are_allowed() {
    assert_eq!(
        static_of(route(Method::Get, "/assets/a%2ecss")),
        Some((Mount::Assets, "a%2ecss".to_string()))
    );
    assert_eq!(
        static_of(route(Method::Get, "/assets/%252e%252e/x")),
        Some((Mount::Assets, "%252e%252e/x".to_string()))
    );
}

#[test]
fn dots_inside_a_name_are_allowed() {
    assert_eq!(
        static_of(route(Method::Get, "/assets/..hidden/a...b")),
        Some((Mount::Assets, "..hidden/a...b".to_string()))
    );
    assert_eq!(
        static_of(route(Method::Get, "/assets/./a.css")),
        Some((Mount::Assets, "./a.css".to_string()))
    );
}

#[test]
fn unknown_route_not_found() {
    assert!(matches!(route(Method::Get, "/nonexistent-route"), Route::NotFound));
}

#[test]
fn near_misses_not_found() {
    for p in ["", "//", "/assets", "/app", "/apps/x", "/Assets/x", "/index.html", "assets/x"] {
        assert!(matches!(route(Method::Get, p), Route::NotFound), "{p}");
    }
}

#[test]
fn non_ascii_path_routed() {
    assert_eq!(
        static_of(route(Method::Get, "/assets/caf\u{e9}/\u{1f600}.png")),
        Some((Mount::Assets, "caf\u{e9}/\u{1f600}.png".to_string()))
    );
}

#[test]
fn mount_roots() {
    assert_eq!(mount_root(Mount::Assets), "./ui/assets");
    assert_eq!(mount_root(Mount::App), "./ui/dist");
}

#[test]
fn prefix_checks() {
    assert!(starts_with("/assets/x", "/assets/"));
    assert!(starts_with("abc", ""));
    assert!(starts_with("abc", "abc"));
    assert!(!starts_with("ab", "abc"));
    assert!(!starts_with("/app/x", "/assets/"));
}

fn parent(s: &str) -> bool {
    has_parent_segment(&s.chars().collect::<Vec<char>>())
}

#[test]
fn parent_segment_checks() {
    assert!(parent(".."));
    assert!(parent("../a"));
    assert!(parent("a/.."));
    assert!(parent("a/../b"));
    assert!(!parent("a\\..\\b"));
    assert!(!parent(""));
    assert!(!parent("."));
    assert!(!parent("a..b"));
    assert!(!parent("a/...b/c"));
    assert!(!parent("..a/b.."));
}

#[test]
fn chars_of_keeps_every_character() {
    assert_eq!(chars_of(""), Vec::<char>::new());
    assert_eq!(chars_of("a\u{e9}/"), vec!['a', '\u{e9}', '/']);
}

#[test]
fn unescape_reads_dots_and_slashes() {
    let u = |s: &str| unescape_path(s).into_iter().collect::<String>();
    assert_eq!(u("%2e%2E%2f%2F"), "..//");
    assert_eq!(u("a%2ecss"), "a.css");
    assert_eq!(u("%41%2g%2"), "%41%2g%2");
    assert_eq!(u("%252e"), "%252e");
    assert_eq!(u("%%2e"), "%.");
    assert_eq!(u(""), "");
}

#[test]
fn escapes_root_checks() {
    assert!(escapes_root_path(".."));
    assert!(escapes_root_path("%2e%2e"));
    assert!(escapes_root_path("a%2F%2E."));
    assert!(!escapes_root_path("a%2e%2eb"));
    assert!(!escapes_root_path("css/site.css"));
    assert!(!escapes_root_path("x\\..\\y"));
}
