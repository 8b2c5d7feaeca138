//! The routing table: which handler a method and a path lead to.

use vstd::prelude::*;
use crate::files::{find_parent_segment, has_parent_segment, percent_decoded};
use crate::response::RequestError;
use crate::text::{begins_with, chars_of, is_text, starts_with, text_from};

verus! {

/// The method of a request, as far as the routes tell methods apart.
#[derive(Clone, Copy, Debug, PartialEq, Eq, Structural)]
pub enum Method {
    Get,
    Post,
    /// Any other method.
    Other,
}

/// Where a request goes.
#[derive(Clone, Debug, PartialEq, Eq)]
pub enum Route {
    /// The index page.
    Index,
    /// The endpoint that echoes the payload as JSON.
    JsonEcho,
    /// The endpoint that answers with the HTML fragment.
    HtmlEcho,
    /// The static file with this path below the root.
    Static(String),
    /// Nowhere: the request ends in this error.
    Rejected(RequestError),
}

/// Where a request goes, with a path as a sequence of characters.
pub enum Target {
    Index,
    JsonEcho,
    HtmlEcho,
    Static(Seq<char>),
    Rejected(RequestError),
}

impl View for Route {
    type V = Target;

    open spec fn view(&self) -> Target {
        match self {
            Route::Index => Target::Index,
            Route::JsonEcho => Target::JsonEcho,
            Route::HtmlEcho => Target::HtmlEcho,
            Route::Static(path) => Target::Static(path@),
            Route::Rejected(error) => Target::Rejected(*error),
        }
    }
}

/// The prefix of the paths that lead to static files.
pub open spec fn static_prefix() -> Seq<char> {
    "/static/"@
}

/// The route with exactly this path, if there is one: the method it takes
/// and where it leads.
pub open spec fn exact_route(path: Seq<char>) -> Option<(Method, Target)> {
    if path == "/"@ {
        Some((Method::Get, Target::Index))
    } else if path == "/json"@ {
        Some((Method::Post, Target::JsonEcho))
    } else if path == "/html"@ {
        Some((Method::Post, Target::HtmlEcho))
    } else {
        None
    }
}

/// Where a request with this method and path goes.
///
/// The three exact routes take one method each, and answer any other with
/// `MethodNotAllowed`. A path below `/static/` leads to the file named by
/// what follows the prefix, whatever the method. Where a segment of that,
/// once its percent-encoded characters are decoded, is `..`, it ends in
/// `StaticNotFound`, so that no path leads out of the root. Every other path
/// ends in `RouteNotFound`.
pub open spec fn route_of(method: Method, path: Seq<char>) -> Target {
    match exact_route(path) {
        Some((expected, target)) => if method == expected {
            target
        } else {
            Target::Rejected(RequestError::MethodNotAllowed)
        },
        None => if starts_with(path, static_prefix()) {
            let relative = path.skip(static_prefix().len() as int);
            if has_parent_segment(percent_decoded(relative)) {
                Target::Rejected(RequestError::StaticNotFound)
            } else {
                Target::Static(relative)
            }
        } else {
            Target::Rejected(RequestError::RouteNotFound)
        },
    }
}

/// Finds where a request with this method and path goes.
pub fn route(method: Method, path: &str) -> (found: Route)
    ensures
        found@ == route_of(method, path@),
{
    let chars = chars_of(path);
    if is_text(&chars, "/") {
        match method {
            Method::Get => Route::Index,
            _ => Route::Rejected(RequestError::MethodNotAllowed),
        }
    } else if is_text(&chars, "/json") {
        match method {
            Method::Post => Route::JsonEcho,
            _ => Route::Rejected(RequestError::MethodNotAllowed),
        }
    } else if is_text(&chars, "/html") {
        match method {
            Method::Post => Route::HtmlEcho,
            _ => Route::Rejected(RequestError::MethodNotAllowed),
        }
    } else if begins_with(&chars, "/static/") {
        proof {
            reveal_strlit("/static/");
        }
        let relative = text_from(&chars, 8);
        if find_parent_segment(relative.as_str()) {
            Route::Rejected(RequestError::StaticNotFound)
        } else {
            Route::Static(relative)
        }
    } else {
        Route::Rejected(RequestError::RouteNotFound)
    }
}

} // verus!
