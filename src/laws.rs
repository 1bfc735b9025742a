//! Properties of routing and replies that hold for every request.
use vstd::prelude::*;
use crate::path::{has_prefix, climbs_out, unescape_dots_slashes};
use crate::route::{Method, Mount, RouteView, route_spec, page_path, mount_prefix};
use crate::reply::{ContentKind, page_ok, not_found, STATUS_OK, STATUS_NOT_FOUND};

verus! {

/// `GET /` is always the page, and a rendered page is always answered with
/// status 200, as HTML, with exactly the rendered text as its body; the reply
/// depends on nothing but that text, so repeating the request repeats it.
pub proof fn lemma_root_serves_page(html: Seq<char>)
    ensures
        route_spec(Method::Get, page_path()) == RouteView::Page,
        page_ok(html).status == STATUS_OK,
        page_ok(html).content == ContentKind::Html,
        page_ok(html).body == html,
        html.len() > 0 ==> page_ok(html).body.len() > 0,
{
}

/// Whenever a request is routed to a static file, the file's path is the
/// request path with the mount's prefix removed, and it holds no `..`
/// segment, neither as written nor once percent escapes of dots and slashes
/// are read as the characters they stand for.
pub proof fn lemma_static_stays_inside(method: Method, path: Seq<char>)
    ensures
        route_spec(method, path) matches RouteView::Static { mount, rel } ==> {
            &&& method == Method::Get
            &&& !climbs_out(rel)
            &&& !climbs_out(unescape_dots_slashes(rel))
            &&& path == mount_prefix(mount) + rel
        },
{
    if let RouteView::Static { mount, rel } = route_spec(method, path) {
        let k = mount_prefix(mount).len() as int;
        assert(path =~= path.subrange(0, k) + path.skip(k));
    }
}

/// A path under a mount whose remainder holds a `..` segment, as written (such
/// as `/assets/../../etc/passwd`) or with escaped dots or slashes (such as
/// `/assets/%2e%2e/%2E%2E/etc/passwd`), is not found, whatever the method.
pub proof fn lemma_climbing_path_not_found(method: Method, mount: Mount, rel: Seq<char>)
    requires
        climbs_out(rel) || climbs_out(unescape_dots_slashes(rel)),
    ensures
        route_spec(method, mount_prefix(mount) + rel) == RouteView::NotFound,
{
    reveal_strlit("/");
    reveal_strlit("/assets/");
    reveal_strlit("/app/");
    let path = mount_prefix(mount) + rel;
    let k = mount_prefix(mount).len() as int;
    assert(path.subrange(0, k) =~= mount_prefix(mount));
    assert(path.skip(k) =~= rel);
    assert(path != page_path()) by {
        assert(path.len() != page_path().len());
    }
    if mount == Mount::App {
        assert(path[2] != mount_prefix(Mount::Assets)[2]);
        assert(!has_prefix(path, mount_prefix(Mount::Assets))) by {
            if has_prefix(path, mount_prefix(Mount::Assets)) {
                assert(path.subrange(0, 8)[2] == path[2]);
            }
        }
    }
}

/// A request that is not `GET /` and whose path lies under neither mount's
/// prefix is not found; so is every request with a method other than `GET`.
pub proof fn lemma_unknown_route_not_found(method: Method, path: Seq<char>)
    requires
        method != Method::Get || {
            &&& path != page_path()
            &&& !has_prefix(path, mount_prefix(Mount::Assets))
            &&& !has_prefix(path, mount_prefix(Mount::App))
        },
    ensures
        route_spec(method, path) == RouteView::NotFound,
        not_found().status == STATUS_NOT_FOUND,
{
}

} // verus!
