//! The routes of the loopback server, in the order in which they are tried.

use crate::http::{path_of, request_path};
use crate::text::{chars_of, has_prefix, same_text};
use vstd::prelude::*;

verus! {

/// The calls that are passed on to another server.
#[derive(Debug, Clone, Copy, PartialEq, Eq, Structural)]
pub enum ProxyRoute {
    /// The health of the helper that serves the private local API.
    ServerIdentity,
    RegisterServer,
    CheckServerUrl,
    DeregisterServer,
}

/// Where a request goes.
#[derive(Debug, Clone, Copy, PartialEq, Eq, Structural)]
pub enum Route {
    /// A cross-origin preflight, on any path.
    Preflight,
    /// The page that starts the flow in the browser.
    LandingPage,
    /// A file that the landing page loads.
    Asset,
    AuthCallback,
    /// The page that ends the flow, after which the server stops.
    CloseTab,
    Proxy(ProxyRoute),
    NotFound,
}

/// The proxied call that a method and a path name, if any.
pub open spec fn proxy_route_of(method: Seq<char>, path: Seq<char>) -> Option<ProxyRoute> {
    if method == "GET"@ && path == "/server-identity"@ {
        Some(ProxyRoute::ServerIdentity)
    } else if method == "POST"@ && path == "/register-server"@ {
        Some(ProxyRoute::RegisterServer)
    } else if method == "GET"@ && path == "/check-server-url"@ {
        Some(ProxyRoute::CheckServerUrl)
    } else if method == "POST"@ && path == "/deregister-server"@ {
        Some(ProxyRoute::DeregisterServer)
    } else {
        None
    }
}

pub fn proxy_route(method: &str, request_path: &str) -> (r: Option<ProxyRoute>)
    ensures
        r == proxy_route_of(method@, request_path@),
{
    let get = same_text(method, "GET");
    let post = same_text(method, "POST");
    if get && same_text(request_path, "/server-identity") {
        Some(ProxyRoute::ServerIdentity)
    } else if post && same_text(request_path, "/register-server") {
        Some(ProxyRoute::RegisterServer)
    } else if get && same_text(request_path, "/check-server-url") {
        Some(ProxyRoute::CheckServerUrl)
    } else if post && same_text(request_path, "/deregister-server") {
        Some(ProxyRoute::DeregisterServer)
    } else {
        None
    }
}

/// Whether a path names a file of the landing page.
pub open spec fn is_asset_path(path: Seq<char>) -> bool {
    "/assets/"@.is_prefix_of(path) || "/fonts/"@.is_prefix_of(path) || path == "/favicon.ico"@
}

/// The route of a request. A preflight is answered on any path; the landing
/// page, its files, the callback and the closing page are matched next; then
/// the proxied calls; whatever is left is not found.
pub open spec fn route_of(method: Seq<char>, target: Seq<char>) -> Route {
    let path = path_of(target);
    if method == "OPTIONS"@ {
        Route::Preflight
    } else if method == "GET"@ && (target == "/"@ || "/?"@.is_prefix_of(target)) {
        Route::LandingPage
    } else if method == "GET"@ && is_asset_path(path) {
        Route::Asset
    } else if method == "POST"@ && (path == "/auth-callback"@ || path == "/"@) {
        Route::AuthCallback
    } else if method == "GET"@ && target == "/close-tab"@ {
        Route::CloseTab
    } else {
        match proxy_route_of(method, path) {
            Some(p) => Route::Proxy(p),
            None => Route::NotFound,
        }
    }
}

pub fn dispatch(method: &str, target: &str) -> (r: Route)
    ensures
        r == route_of(method@, target@),
{
    let path = request_path(target);
    let get = same_text(method, "GET");
    let post = same_text(method, "POST");
    if same_text(method, "OPTIONS") {
        return Route::Preflight;
    }
    if get {
        let t = chars_of(target);
        let p = chars_of(path.as_str());
        if same_text(target, "/") || has_prefix(&t, &chars_of("/?")) {
            return Route::LandingPage;
        }
        if has_prefix(&p, &chars_of("/assets/")) || has_prefix(&p, &chars_of("/fonts/"))
            || same_text(path.as_str(), "/favicon.ico") {
            return Route::Asset;
        }
    }
    if post && (same_text(path.as_str(), "/auth-callback") || same_text(path.as_str(), "/")) {
        return Route::AuthCallback;
    }
    if get && same_text(target, "/close-tab") {
        return Route::CloseTab;
    }
    match proxy_route(method, path.as_str()) {
        Some(p) => Route::Proxy(p),
        None => Route::NotFound,
    }
}

} // verus!
