use where_am_i::headers::{extract_location, HeaderMap};
use where_am_i::json::location_json;

#[test]
fn one_header_yields_one_value_and_nine_nulls() {
    let mut h = HeaderMap::new();
    h.add("CF-IPCountry", "US");
    let record = extract_location(&h);
    assert_eq!(record.country.as_deref(), Some("US"));
    assert_eq!(record.city, None);
    assert_eq!(
        location_json(&record),
        "{\"CF-IPCountry\":\"US\",\"CF-IPCity\":null,\"CF-IPContinent\":null,\
         \"CF-IPLongitude\":null,\"CF-IPLatitude\":null,\"CF-Region\":null,\
         \"CF-Region-Code\":null,\"CF-Metro-Code\":null,\"CF-Postal-Code\":null,\
         \"CF-Timezone\":null}"
    );
}

#[test]
fn header_names_match_without_regard_to_case() {
    let mut h = HeaderMap::new();
    h.add("cf-ipcountry", "DE");
    h.add("CF-TIMEZONE", "Europe/Berlin");
    let record = extract_location(&h);
    assert_eq!(record.country.as_deref(), Some("DE"));
    assert_eq!(record.timezone.as_deref(), Some("Europe/Berlin"));
}

#[test]
fn first_matching_header_wins() {
    let mut h = HeaderMap::new();
    h.add("CF-IPCountry", "US");
    h.add("CF-IPCountry", "DE");
    let record = extract_location(&h);
    assert_eq!(record.country.as_deref(), Some("US"));
}

#[test]
fn values_are_copied_verbatim() {
    let mut h = HeaderMap::new();
    h.add("CF-IPCity", "  San Jose ");
    let record = extract_location(&h);
    assert_eq!(record.city.as_deref(), Some("  San Jose "));
}

#[test]
fn all_ten_headers_are_extracted() {
    let mut h = HeaderMap::new();
    h.add("CF-IPCountry", "US");
    h.add("CF-IPCity", "Austin");
    h.add("CF-IPContinent", "NA");
    h.add("CF-IPLongitude", "-97.74306");
    h.add("CF-IPLatitude", "30.26715");
    h.add("CF-Region", "Texas");
    h.add("CF-Region-Code", "TX");
    h.add("CF-Metro-Code", "635");
    h.add("CF-Postal-Code", "78701");
    h.add("CF-Timezone", "America/Chicago");
    let record = extract_location(&h);
    assert_eq!(record.longitude.as_deref(), Some("-97.74306"));
    assert_eq!(record.latitude.as_deref(), Some("30.26715"));
    assert_eq!(
        location_json(&record),
        "{\"CF-IPCountry\":\"US\",\"CF-IPCity\":\"Austin\",\"CF-IPContinent\":\"NA\",\
         \"CF-IPLongitude\":\"-97.74306\",\"CF-IPLatitude\":\"30.26715\",\
         \"CF-Region\":\"Texas\",\"CF-Region-Code\":\"TX\",\"CF-Metro-Code\":\"635\",\
         \"CF-Postal-Code\":\"78701\",\"CF-Timezone\":\"America/Chicago\"}"
    );
}

#[test]
fn json_escapes_quotes_backslashes_and_controls() {
    let mut h = HeaderMap::new();
    h.add("CF-IPCity", "a\"b\\c\nd\te\u{1}f");
    let record = extract_location(&h);
    let body = location_json(&record);
    assert!(body.contains("\"CF-IPCity\":\"a\\\"b\\\\c\\nd\\te\\u0001f\""));
}
