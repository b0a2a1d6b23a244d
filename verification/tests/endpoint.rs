use where_am_i::headers::HeaderMap;
use where_am_i::respond::{
    get_response, handle_request, options_response, route, HttpResponse, Route,
};

fn header_value(resp: &HttpResponse, name: &str) -> Option<String> {
    resp.headers
        .iter()
        .find(|(n, _)| n.as_str() == name)
        .map(|(_, v)| v.clone())
}

const ALL_NULL_BODY: &str = "{\"CF-IPCountry\":null,\"CF-IPCity\":null,\"CF-IPContinent\":null,\
     \"CF-IPLongitude\":null,\"CF-IPLatitude\":null,\"CF-Region\":null,\
     \"CF-Region-Code\":null,\"CF-Metro-Code\":null,\"CF-Postal-Code\":null,\
     \"CF-Timezone\":null}";

#[test]
fn preflight_without_origin_or_config() {
    let h = HeaderMap::new();
    let resp = options_response(&h, None);
    assert_eq!(resp.status, 200);
    assert_eq!(
        header_value(&resp, "Access-Control-Allow-Origin").as_deref(),
        Some("*")
    );
    assert_eq!(
        header_value(&resp, "Access-Control-Max-Age").as_deref(),
        Some("86400")
    );
    assert_eq!(resp.body, "");
}

#[test]
fn get_with_configured_list_and_listed_origin() {
    let mut h = HeaderMap::new();
    h.add("Origin", "https://b.com");
    let resp = get_response(&h, Some("https://other.com"));
    assert_eq!(
        header_value(&resp, "Access-Control-Allow-Origin").as_deref(),
        Some("null")
    );
    let resp = get_response(&h, Some("https://a.com, https://b.com"));
    assert_eq!(resp.status, 200);
    assert_eq!(
        header_value(&resp, "Access-Control-Allow-Origin").as_deref(),
        Some("https://b.com")
    );
    assert_eq!(
        header_value(&resp, "Content-Type").as_deref(),
        Some("application/json")
    );
    assert_eq!(resp.body, ALL_NULL_BODY);
}

#[test]
fn get_carries_the_fixed_cors_headers() {
    let h = HeaderMap::new();
    let resp = get_response(&h, None);
    assert_eq!(
        header_value(&resp, "Access-Control-Allow-Methods").as_deref(),
        Some("GET, OPTIONS")
    );
    assert_eq!(
        header_value(&resp, "Access-Control-Allow-Headers").as_deref(),
        Some("*")
    );
    assert_eq!(
        header_value(&resp, "Access-Control-Allow-Credentials").as_deref(),
        Some("true")
    );
    assert_eq!(
        header_value(&resp, "Access-Control-Allow-Origin").as_deref(),
        Some("*")
    );
}

#[test]
fn routes_match_exactly() {
    assert_eq!(route("GET", "/"), Route::GetLocation);
    assert_eq!(route("OPTIONS", "/"), Route::Preflight);
    assert_eq!(route("POST", "/"), Route::NoRoute);
    assert_eq!(route("GET", "/other"), Route::NoRoute);
    assert_eq!(route("get", "/"), Route::NoRoute);
}

#[test]
fn handler_dispatches_and_rejects() {
    let h = HeaderMap::new();
    let resp = handle_request("GET", "/", &h, None).expect("GET / is served");
    assert_eq!(resp.status, 200);
    assert_eq!(resp.body, ALL_NULL_BODY);
    let resp = handle_request("OPTIONS", "/", &h, None).expect("OPTIONS / is served");
    assert_eq!(resp.body, "");
    assert!(handle_request("DELETE", "/", &h, None).is_none());
    assert!(handle_request("GET", "/nowhere", &h, None).is_none());
}
