//! Canonical responses of the gateway and the management endpoint's routing.
use vstd::prelude::*;

verus! {

/// The ways a request can fail at the gateway, each with its canonical response.
#[derive(Debug, Clone, Copy, PartialEq, Eq, Structural)]
pub enum Failure {
    NotFound,
    TooManyRequests,
    InternalError,
    ServiceUnavailable,
    GatewayTimeout,
}

/// The HTTP status of a failure.
pub open spec fn failure_status(f: Failure) -> u16 {
    match f {
        Failure::NotFound => 404,
        Failure::TooManyRequests => 429,
        Failure::InternalError => 500,
        Failure::ServiceUnavailable => 503,
        Failure::GatewayTimeout => 504,
    }
}

/// The body text of a failure's response.
pub open spec fn failure_body(f: Failure) -> Seq<char> {
    match f {
        Failure::NotFound => "404 Not Found"@,
        Failure::TooManyRequests => "429 Too Many Requests"@,
        Failure::InternalError => "500 Internal Server Error"@,
        Failure::ServiceUnavailable => "503 Service Unavailable"@,
        Failure::GatewayTimeout => "504 Gateway Timeout"@,
    }
}

/// A complete response as plain values: status, headers and body.
#[derive(Debug)]
pub struct CannedResponse {
    pub status: u16,
    pub content_type: String,
    pub content_encoding: Option<String>,
    pub body: String,
}

/// The response that stands for a failure: its status and body, as plain
/// UTF-8 text, with `Content-Encoding: utf-8`.
pub open spec fn is_canned(r: CannedResponse, f: Failure) -> bool {
    &&& r.status == failure_status(f)
    &&& r.body@ == failure_body(f)
    &&& r.content_type@ == "text/plain; charset=utf-8"@
    &&& r.content_encoding matches Some(e) && e@ == "utf-8"@
}

/// The canonical response of a failure.
pub fn failure_response(f: Failure) -> (r: CannedResponse)
    ensures
        is_canned(r, f),
{
    let (status, body): (u16, &str) = match f {
        Failure::NotFound => (404, "404 Not Found"),
        Failure::TooManyRequests => (429, "429 Too Many Requests"),
        Failure::InternalError => (500, "500 Internal Server Error"),
        Failure::ServiceUnavailable => (503, "503 Service Unavailable"),
        Failure::GatewayTimeout => (504, "504 Gateway Timeout"),
    };
    CannedResponse {
        status,
        content_type: "text/plain; charset=utf-8".to_owned(),
        content_encoding: Some("utf-8".to_owned()),
        body: body.to_owned(),
    }
}

/// The canonical 404 response.
pub fn create_404_not_found_response() -> (r: CannedResponse)
    ensures
        is_canned(r, Failure::NotFound),
{
    failure_response(Failure::NotFound)
}

/// The canonical 429 response.
pub fn create_429_too_many_requests_response() -> (r: CannedResponse)
    ensures
        is_canned(r, Failure::TooManyRequests),
{
    failure_response(Failure::TooManyRequests)
}

/// The canonical 500 response.
pub fn create_500_int_error_response() -> (r: CannedResponse)
    ensures
        is_canned(r, Failure::InternalError),
{
    failure_response(Failure::InternalError)
}

/// The canonical 503 response.
pub fn create_503_service_unavailable_response() -> (r: CannedResponse)
    ensures
        is_canned(r, Failure::ServiceUnavailable),
{
    failure_response(Failure::ServiceUnavailable)
}

/// The canonical 504 response.
pub fn create_504_gateway_timeout_response() -> (r: CannedResponse)
    ensures
        is_canned(r, Failure::GatewayTimeout),
{
    failure_response(Failure::GatewayTimeout)
}

/// The management endpoint: `GET /status` reports health as JSON; anything
/// else is not found.
pub fn management_response(method: &str, path: &str) -> (r: CannedResponse)
    ensures
        (method@ == "GET"@ && path@ == "/status"@) ==> {
            &&& r.status == 200
            &&& r.content_type@ == "application/json"@
            &&& r.content_encoding is None
            &&& r.body@ == "{\"status\":\"healthy\"}"@
        },
        !(method@ == "GET"@ && path@ == "/status"@) ==> is_canned(r, Failure::NotFound),
{
    let get = "GET";
    let status_path = "/status";
    if crate::text::starts_with(method, get) && method.unicode_len() == get.unicode_len()
        && crate::text::starts_with(path, status_path) && path.unicode_len()
        == status_path.unicode_len() {
        assert(method@ =~= get@);
        assert(path@ =~= status_path@);
        CannedResponse {
            status: 200,
            content_type: "application/json".to_owned(),
            content_encoding: None,
            body: "{\"status\":\"healthy\"}".to_owned(),
        }
    } else {
        proof {
            if method@ == get@ {
                assert(method@.subrange(0, get@.len() as int) =~= get@);
            }
            if path@ == status_path@ {
                assert(path@.subrange(0, status_path@.len() as int) =~= status_path@);
            }
        }
        create_404_not_found_response()
    }
}

} // verus!
