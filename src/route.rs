//! The router: which handler answers a request, from its method and path.
use vstd::prelude::*;
use crate::path::{has_prefix, escapes_root, starts_with, escapes_root_path};

verus! {

/// Request methods, as far as routing tells them apart.
#[derive(Clone, Copy, Debug, PartialEq, Eq, Structural)]
pub enum Method {
    Get,
    Head,
    Post,
    Put,
    Delete,
    Patch,
    Options,
    Other,
}

/// The two static directories, each served under its own path prefix.
#[derive(Clone, Copy, Debug, PartialEq, Eq, Structural)]
pub enum Mount {
    /// `/assets/...`, served from `./ui/assets`.
    Assets,
    /// `/app/...`, served from `./ui/dist`.
    App,
}

/// The handler chosen for a request.
#[derive(Clone, Debug)]
pub enum Route {
    /// Render the fixed page.
    Page,
    /// Serve the file at `rel` (the path with the mount's prefix removed)
    /// from the mount's directory.
    Static { mount: Mount, rel: String },
    /// Answer 404.
    NotFound,
}

/// What a `Route` denotes.
pub ghost enum RouteView {
    Page,
    Static { mount: Mount, rel: Seq<char> },
    NotFound,
}

impl View for Route {
    type V = RouteView;

    open spec fn view(&self) -> RouteView {
        match self {
            Route::Page => RouteView::Page,
            Route::Static { mount, rel } => RouteView::Static { mount: *mount, rel: rel@ },
            Route::NotFound => RouteView::NotFound,
        }
    }
}

/// The path of the page.
pub open spec fn page_path() -> Seq<char> {
    "/"@
}

/// The path prefix under which a mount is served.
pub open spec fn mount_prefix(m: Mount) -> Seq<char> {
    match m {
        Mount::Assets => "/assets/"@,
        Mount::App => "/app/"@,
    }
}

/// The directory a mount serves, relative to the working directory.
pub open spec fn mount_dir(m: Mount) -> Seq<char> {
    match m {
        Mount::Assets => "./ui/assets"@,
        Mount::App => "./ui/dist"@,
    }
}

/// A file below a mount, unless its relative path could climb out of the mount.
pub open spec fn static_route(m: Mount, rel: Seq<char>) -> RouteView {
    if escapes_root(rel) {
        RouteView::NotFound
    } else {
        RouteView::Static { mount: m, rel }
    }
}

/// The route for a request: `GET /` is the page; a `GET` of a path under a
/// mount's prefix is a file of that mount, with the prefix removed; everything
/// else, and any path that could climb out of its mount, is not found.
pub open spec fn route_spec(method: Method, path: Seq<char>) -> RouteView {
    if method != Method::Get {
        RouteView::NotFound
    } else if path == page_path() {
        RouteView::Page
    } else if has_prefix(path, mount_prefix(Mount::Assets)) {
        static_route(Mount::Assets, path.skip(mount_prefix(Mount::Assets).len() as int))
    } else if has_prefix(path, mount_prefix(Mount::App)) {
        static_route(Mount::App, path.skip(mount_prefix(Mount::App).len() as int))
    } else {
        RouteView::NotFound
    }
}

fn prefix_of(m: Mount) -> (r: &'static str)
    ensures
        r@ == mount_prefix(m),
{
    match m {
        Mount::Assets => "/assets/",
        Mount::App => "/app/",
    }
}

/// The directory that a mount serves.
pub fn mount_root(m: Mount) -> (r: String)
    ensures
        r@ == mount_dir(m),
{
    match m {
        Mount::Assets => String::from_str("./ui/assets"),
        Mount::App => String::from_str("./ui/dist"),
    }
}

/// The route of `path` below mount `m`, where `path` starts with its prefix.
fn route_below(m: Mount, path: &str) -> (r: Route)
    requires
        has_prefix(path@, mount_prefix(m)),
    ensures
        r@ == static_route(m, path@.skip(mount_prefix(m).len() as int)),
{
    let k = prefix_of(m).unicode_len();
    let n = path.unicode_len();
    let rel = path.substring_char(k, n);
    assert(rel@ =~= path@.skip(k as int));
    if escapes_root_path(rel) {
        Route::NotFound
    } else {
        Route::Static { mount: m, rel: String::from_str(rel) }
    }
}

/// Chooses the handler for a request.
pub fn route(method: Method, path: &str) -> (r: Route)
    ensures
        r@ == route_spec(method, path@),
{
    if method != Method::Get {
        return Route::NotFound;
    }
    if starts_with(path, "/") && path.unicode_len() == "/".unicode_len() {
        assert(path@ =~= path@.subrange(0, page_path().len() as int));
        return Route::Page;
    }
    proof {
        if path@ == page_path() {
            assert(path@.subrange(0, page_path().len() as int) =~= path@);
        }
    }
    if starts_with(path, prefix_of(Mount::Assets)) {
        route_below(Mount::Assets, path)
    } else if starts_with(path, prefix_of(Mount::App)) {
        route_below(Mount::App, path)
    } else {
        Route::NotFound
    }
}

} // verus!
