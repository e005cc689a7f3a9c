//! The response model: a status, a body, and which of the four fixed
//! headers the answer carries. The header names and values are fixed by
//! the API's CORS policy, so they are modelled as an enumeration and
//! rendered to their exact text here.

use vstd::prelude::*;
use vstd::string::*;

verus! {

/// The headers the API ever sets, each with one fixed value.
#[derive(Clone, Copy, PartialEq, Eq, Structural, Debug)]
pub enum HeaderKind {
    ContentTypeJson,
    AllowOrigin,
    AllowMethods,
    AllowHeaders,
}

/// One HTTP answer, ready for the transport layer to frame.
pub struct HttpResponse {
    pub status: u16,
    pub body: String,
    pub headers: Vec<HeaderKind>,
}

/// The name of each fixed header.
pub open spec fn spec_header_name(k: HeaderKind) -> Seq<char> {
    match k {
        HeaderKind::ContentTypeJson => "Content-Type"@,
        HeaderKind::AllowOrigin => "Access-Control-Allow-Origin"@,
        HeaderKind::AllowMethods => "Access-Control-Allow-Methods"@,
        HeaderKind::AllowHeaders => "Access-Control-Allow-Headers"@,
    }
}

/// The value of each fixed header.
pub open spec fn spec_header_value(k: HeaderKind) -> Seq<char> {
    match k {
        HeaderKind::ContentTypeJson => "application/json"@,
        HeaderKind::AllowOrigin => "*"@,
        HeaderKind::AllowMethods => "GET, POST, DELETE, OPTIONS"@,
        HeaderKind::AllowHeaders => "Content-Type, Authorization"@,
    }
}

pub fn header_name(k: HeaderKind) -> (r: &'static str)
    ensures
        r@ == spec_header_name(k),
{
    match k {
        HeaderKind::ContentTypeJson => "Content-Type",
        HeaderKind::AllowOrigin => "Access-Control-Allow-Origin",
        HeaderKind::AllowMethods => "Access-Control-Allow-Methods",
        HeaderKind::AllowHeaders => "Access-Control-Allow-Headers",
    }
}

pub fn header_value(k: HeaderKind) -> (r: &'static str)
    ensures
        r@ == spec_header_value(k),
{
    match k {
        HeaderKind::ContentTypeJson => "application/json",
        HeaderKind::AllowOrigin => "*",
        HeaderKind::AllowMethods => "GET, POST, DELETE, OPTIONS",
        HeaderKind::AllowHeaders => "Content-Type, Authorization",
    }
}

/// The three CORS headers every answer carries; a preflight or
/// placeholder answer carries nothing more.
pub open spec fn cors_headers() -> Seq<HeaderKind> {
    seq![HeaderKind::AllowOrigin, HeaderKind::AllowMethods, HeaderKind::AllowHeaders]
}

/// The headers of a JSON answer: the content type and the full CORS set.
pub open spec fn full_headers() -> Seq<HeaderKind> {
    seq![
        HeaderKind::ContentTypeJson,
        HeaderKind::AllowOrigin,
        HeaderKind::AllowMethods,
        HeaderKind::AllowHeaders,
    ]
}

/// The CORS preflight answer: no content, no body, the three
/// access-control headers.
pub fn request_options() -> (r: HttpResponse)
    ensures
        r.status == 204,
        r.body@ == Seq::<char>::empty(),
        r.headers@ == cors_headers(),
{
    let mut headers: Vec<HeaderKind> = Vec::new();
    headers.push(HeaderKind::AllowOrigin);
    headers.push(HeaderKind::AllowMethods);
    headers.push(HeaderKind::AllowHeaders);
    proof {
        assert(headers@ =~= cors_headers());
    }
    HttpResponse { status: 204, body: String::new(), headers }
}

/// An answer with the given body and status that repeats the full CORS
/// set, as the deletion endpoint sends.
pub fn response(data: &str, status: u16) -> (r: HttpResponse)
    ensures
        r.status == status,
        r.body@ == data@,
        r.headers@ == full_headers(),
{
    let mut headers: Vec<HeaderKind> = Vec::new();
    headers.push(HeaderKind::ContentTypeJson);
    headers.push(HeaderKind::AllowOrigin);
    headers.push(HeaderKind::AllowMethods);
    headers.push(HeaderKind::AllowHeaders);
    proof {
        assert(headers@ =~= full_headers());
    }
    HttpResponse { status, body: data.to_owned(), headers }
}

/// A 200 JSON answer with the given body, as the successful endpoints
/// send.
pub fn json_response(body: String) -> (r: HttpResponse)
    ensures
        r.status == 200,
        r.body == body,
        r.headers@ == full_headers(),
{
    let mut headers: Vec<HeaderKind> = Vec::new();
    headers.push(HeaderKind::ContentTypeJson);
    headers.push(HeaderKind::AllowOrigin);
    headers.push(HeaderKind::AllowMethods);
    headers.push(HeaderKind::AllowHeaders);
    proof {
        assert(headers@ =~= full_headers());
    }
    HttpResponse { status: 200, body, headers }
}

/// The placeholder answer of every unrouted request: a plain 200 that
/// still carries the CORS set.
pub fn fallback_response() -> (r: HttpResponse)
    ensures
        r.status == 200,
        r.body@ == "Hello, World!"@,
        r.headers@ == cors_headers(),
{
    let mut headers: Vec<HeaderKind> = Vec::new();
    headers.push(HeaderKind::AllowOrigin);
    headers.push(HeaderKind::AllowMethods);
    headers.push(HeaderKind::AllowHeaders);
    proof {
        assert(headers@ =~= cors_headers());
    }
    HttpResponse { status: 200, body: "Hello, World!".to_owned(), headers }
}

} // verus!
