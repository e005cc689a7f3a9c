//! Request routing: which behaviour a method and path select. A preflight
//! always answers first; the metric and listing paths match on the path
//! alone; only the target-management paths distinguish methods; anything
//! else falls through to the placeholder answer.

use vstd::prelude::*;

use crate::strutil::str_eq;

verus! {

/// The request methods the dispatcher tells apart.
#[derive(Clone, Copy, PartialEq, Eq, Structural, Debug)]
pub enum Method {
    Get,
    Post,
    Delete,
    Options,
    Other,
}

/// The behaviours a request can be routed to.
#[derive(Clone, Copy, PartialEq, Eq, Structural, Debug)]
pub enum Route {
    Preflight,
    Memory,
    Cpu,
    Uptime,
    CpuHistory,
    UrlsList,
    UrlsCreate,
    UrlsDelete,
    Fallback,
}

/// The routing table, as a function of method and path.
pub open spec fn spec_route(m: Method, path: Seq<char>) -> Route {
    if m is Options {
        Route::Preflight
    } else if path == "/memory"@ {
        Route::Memory
    } else if path == "/cpu"@ {
        Route::Cpu
    } else if path == "/uptime"@ {
        Route::Uptime
    } else if path == "/cpu/history"@ {
        Route::CpuHistory
    } else if path == "/urls"@ && m is Get {
        Route::UrlsList
    } else if path == "/urls"@ && m is Post {
        Route::UrlsCreate
    } else if path == "/urls"@ && m is Delete {
        Route::UrlsDelete
    } else {
        Route::Fallback
    }
}

/// Route one request.
pub fn route(m: Method, path: &str) -> (r: Route)
    ensures
        r == spec_route(m, path@),
{
    if matches!(m, Method::Options) {
        return Route::Preflight;
    }
    if str_eq(path, "/memory") {
        return Route::Memory;
    }
    if str_eq(path, "/cpu") {
        return Route::Cpu;
    }
    if str_eq(path, "/uptime") {
        return Route::Uptime;
    }
    if str_eq(path, "/cpu/history") {
        return Route::CpuHistory;
    }
    if str_eq(path, "/urls") {
        if matches!(m, Method::Get) {
            return Route::UrlsList;
        }
        if matches!(m, Method::Post) {
            return Route::UrlsCreate;
        }
        if matches!(m, Method::Delete) {
            return Route::UrlsDelete;
        }
    }
    Route::Fallback
}

} // verus!
