//! The request router: dispatches an inbound request to one of the four
//! operations by method and path. Anything else is answered not-found.

use vstd::prelude::*;
use crate::text::str_eq;

verus! {

/// The operation a request dispatches to.
#[derive(Clone, Copy, Debug, PartialEq, Eq, Structural)]
pub enum Route {
    /// `POST /upload`: the upload pipeline.
    Upload,
    /// `POST /download`: the download pipeline.
    Download,
    /// `POST /get_domain_data`: the metadata lookup.
    MetadataLookup,
    /// `POST /shutdown`: the one-shot graceful stop.
    Shutdown,
    /// Any other method or path.
    NotFound,
}

/// The route a method and path dispatch to.
pub open spec fn route_spec(method: Seq<char>, path: Seq<char>) -> Route {
    if method != "POST"@ {
        Route::NotFound
    } else if path == "/upload"@ {
        Route::Upload
    } else if path == "/download"@ {
        Route::Download
    } else if path == "/get_domain_data"@ {
        Route::MetadataLookup
    } else if path == "/shutdown"@ {
        Route::Shutdown
    } else {
        Route::NotFound
    }
}

/// Dispatches a request by method and path.
pub fn route_of(method: &str, path: &str) -> (r: Route)
    ensures
        r == route_spec(method@, path@),
{
    if !str_eq(method, "POST") {
        Route::NotFound
    } else if str_eq(path, "/upload") {
        Route::Upload
    } else if str_eq(path, "/download") {
        Route::Download
    } else if str_eq(path, "/get_domain_data") {
        Route::MetadataLookup
    } else if str_eq(path, "/shutdown") {
        Route::Shutdown
    } else {
        Route::NotFound
    }
}

/// The fixed body of the not-found answer.
pub fn not_found_text() -> (r: &'static str)
    ensures
        r@ == "Not Found"@,
{
    "Not Found"
}

} // verus!
