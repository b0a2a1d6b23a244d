//! Response shaping and routing: the exact status, headers and body of
//! the two routes the endpoint serves.

use vstd::prelude::*;
use crate::cors::{allow_list_of, chosen_origin, decide_origin, resolve_allow_list};
use crate::headers::{extract_location, header_lookup, located, HeaderMap};
use crate::json::{location_json, location_json_text};

verus! {

/// An HTTP response as plain values: a status code, ordered response
/// headers, and the body text.
pub struct HttpResponse {
    pub status: u16,
    pub headers: Vec<(String, String)>,
    pub body: String,
}

/// The mathematical shadow of an `HttpResponse`.
pub ghost struct ResponseView {
    pub status: u16,
    pub headers: Seq<(Seq<char>, Seq<char>)>,
    pub body: Seq<char>,
}

impl View for HttpResponse {
    type V = ResponseView;

    open spec fn view(&self) -> ResponseView {
        ResponseView {
            status: self.status,
            headers: self.headers.deep_view(),
            body: self.body@,
        }
    }
}

/// The four cross-origin headers both routes carry, in order, for an
/// already decided `Access-Control-Allow-Origin` value.
pub open spec fn cors_headers_for(origin: Seq<char>) -> Seq<(Seq<char>, Seq<char>)> {
    seq![
        ("Access-Control-Allow-Origin"@, origin),
        ("Access-Control-Allow-Methods"@, "GET, OPTIONS"@),
        ("Access-Control-Allow-Headers"@, "*"@),
        ("Access-Control-Allow-Credentials"@, "true"@),
    ]
}

/// The origin value a request is owed: its `Origin` header held against
/// the allow-list resolved from the configuration.
pub open spec fn origin_for(
    req_headers: Seq<(Seq<char>, Seq<char>)>,
    config: Option<Seq<char>>,
) -> Seq<char> {
    chosen_origin(header_lookup(req_headers, "Origin"@), allow_list_of(config))
}

/// The whole response of the GET route: status 200, the geolocation JSON
/// as the body, the cross-origin headers, and a JSON content type.
pub open spec fn get_response_view(
    req_headers: Seq<(Seq<char>, Seq<char>)>,
    config: Option<Seq<char>>,
) -> ResponseView {
    ResponseView {
        status: 200,
        headers: cors_headers_for(origin_for(req_headers, config)).push(
            ("Content-Type"@, "application/json"@),
        ),
        body: location_json_text(located(req_headers)),
    }
}

/// The whole response of the OPTIONS (preflight) route: status 200, an
/// empty body, the cross-origin headers, and a preflight cache lifetime.
pub open spec fn options_response_view(
    req_headers: Seq<(Seq<char>, Seq<char>)>,
    config: Option<Seq<char>>,
) -> ResponseView {
    ResponseView {
        status: 200,
        headers: cors_headers_for(origin_for(req_headers, config)).push(
            ("Access-Control-Max-Age"@, "86400"@),
        ),
        body: Seq::empty(),
    }
}

/// Decides the origin value for a request from its headers and the raw
/// configuration string.
fn decide_origin_for(req_headers: &HeaderMap, config: Option<&str>) -> (r: String)
    ensures
        r@ == origin_for(req_headers@, config.deep_view()),
{
    let origins = resolve_allow_list(config);
    let origin_header = req_headers.get("Origin");
    match &origin_header {
        Option::Some(o) => decide_origin(Some(o.as_str()), &origins),
        Option::None => decide_origin(None, &origins),
    }
}

/// Builds the GET response for a request: the geolocation headers read
/// into a record, serialized as JSON, under the cross-origin headers.
pub fn get_response(req_headers: &HeaderMap, config: Option<&str>) -> (r: HttpResponse)
    ensures
        r@ == get_response_view(req_headers@, config.deep_view()),
{
    let record = extract_location(req_headers);
    let body = location_json(&record);
    let origin = decide_origin_for(req_headers, config);
    let mut hs: Vec<(String, String)> = Vec::new();
    hs.push(("Access-Control-Allow-Origin".to_owned(), origin));
    hs.push(("Access-Control-Allow-Methods".to_owned(), "GET, OPTIONS".to_owned()));
    hs.push(("Access-Control-Allow-Headers".to_owned(), "*".to_owned()));
    hs.push(("Access-Control-Allow-Credentials".to_owned(), "true".to_owned()));
    hs.push(("Content-Type".to_owned(), "application/json".to_owned()));
    let r = HttpResponse { status: 200, headers: hs, body };
    proof {
        assert(r@.headers =~= get_response_view(req_headers@, config.deep_view()).headers);
    }
    r
}

/// Builds the OPTIONS (preflight) response for a request: an empty body
/// under the cross-origin headers and the preflight cache lifetime.
pub fn options_response(req_headers: &HeaderMap, config: Option<&str>) -> (r: HttpResponse)
    ensures
        r@ == options_response_view(req_headers@, config.deep_view()),
{
    let origin = decide_origin_for(req_headers, config);
    let mut hs: Vec<(String, String)> = Vec::new();
    hs.push(("Access-Control-Allow-Origin".to_owned(), origin));
    hs.push(("Access-Control-Allow-Methods".to_owned(), "GET, OPTIONS".to_owned()));
    hs.push(("Access-Control-Allow-Headers".to_owned(), "*".to_owned()));
    hs.push(("Access-Control-Allow-Credentials".to_owned(), "true".to_owned()));
    hs.push(("Access-Control-Max-Age".to_owned(), "86400".to_owned()));
    let r = HttpResponse { status: 200, headers: hs, body: String::new() };
    proof {
        assert(r@.headers =~= options_response_view(req_headers@, config.deep_view()).headers);
    }
    r
}

/// The two routes the endpoint defines, and the fall-through for every
/// other method or path.
#[derive(Clone, Copy, Debug, PartialEq, Eq, Structural)]
pub enum Route {
    GetLocation,
    Preflight,
    NoRoute,
}

/// Where a method and path lead: only `GET /` and `OPTIONS /` are served.
pub open spec fn route_of(method: Seq<char>, path: Seq<char>) -> Route {
    if method == "GET"@ && path == "/"@ {
        Route::GetLocation
    } else if method == "OPTIONS"@ && path == "/"@ {
        Route::Preflight
    } else {
        Route::NoRoute
    }
}

/// Dispatches a method and path by exact match.
pub fn route(method: &str, path: &str) -> (r: Route)
    ensures
        r == route_of(method@, path@),
{
    if crate::text::str_eq(path, "/") {
        if crate::text::str_eq(method, "GET") {
            Route::GetLocation
        } else if crate::text::str_eq(method, "OPTIONS") {
            Route::Preflight
        } else {
            Route::NoRoute
        }
    } else {
        Route::NoRoute
    }
}

/// Serves one request: routes it by method and path, and builds the full
/// response of the matched route. `None` stands for an unmatched route,
/// which the surrounding routing layer answers with its own "not found"
/// outcome.
pub fn handle_request(method: &str, path: &str, req_headers: &HeaderMap, config: Option<&str>) -> (r:
    Option<HttpResponse>)
    ensures
        match route_of(method@, path@) {
            Route::GetLocation => r matches Some(resp) && resp@ == get_response_view(
                req_headers@,
                config.deep_view(),
            ),
            Route::Preflight => r matches Some(resp) && resp@ == options_response_view(
                req_headers@,
                config.deep_view(),
            ),
            Route::NoRoute => r is None,
        },
{
    match route(method, path) {
        Route::GetLocation => Some(get_response(req_headers, config)),
        Route::Preflight => Some(options_response(req_headers, config)),
        Route::NoRoute => None,
    }
}

} // verus!
