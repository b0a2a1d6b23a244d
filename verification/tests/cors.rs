use where_am_i::cors::{decide_origin, resolve_allow_list};

fn strings(v: &[&str]) -> Vec<String> {
    v.iter().map(|s| s.to_string()).collect()
}

#[test]
fn absent_config_defaults_to_wildcard() {
    assert_eq!(resolve_allow_list(None), strings(&["*"]));
}

#[test]
fn empty_config_defaults_to_wildcard() {
    assert_eq!(resolve_allow_list(Some("")), strings(&["*"]));
}

#[test]
fn whitespace_and_commas_default_to_wildcard() {
    assert_eq!(resolve_allow_list(Some(" , ,")), strings(&["*"]));
    assert_eq!(resolve_allow_list(Some(",,,")), strings(&["*"]));
    assert_eq!(resolve_allow_list(Some("   ")), strings(&["*"]));
}

#[test]
fn config_pieces_are_trimmed_and_kept_in_order() {
    assert_eq!(
        resolve_allow_list(Some("https://a.com, https://b.com")),
        strings(&["https://a.com", "https://b.com"])
    );
    assert_eq!(
        resolve_allow_list(Some("  https://a.com  ,,  https://b.com ")),
        strings(&["https://a.com", "https://b.com"])
    );
}

#[test]
fn tabs_and_newlines_are_trimmed() {
    assert_eq!(
        resolve_allow_list(Some("\thttps://a.com\n,\u{A0} https://b.com ")),
        strings(&["https://a.com", "https://b.com"])
    );
}

#[test]
fn duplicate_list_entries_still_match() {
    assert_eq!(
        decide_origin(
            Some("https://a.com"),
            &strings(&["https://a.com", "https://a.com"])
        ),
        "https://a.com"
    );
}

#[test]
fn duplicates_pass_through() {
    assert_eq!(
        resolve_allow_list(Some("https://a.com,https://a.com")),
        strings(&["https://a.com", "https://a.com"])
    );
}

#[test]
fn literal_star_config_resolves_to_wildcard_list() {
    assert_eq!(resolve_allow_list(Some("*")), strings(&["*"]));
    assert_eq!(resolve_allow_list(Some(" * ,")), strings(&["*"]));
}

#[test]
fn absent_origin_gets_star() {
    assert_eq!(decide_origin(None, &strings(&["https://a.com"])), "*");
    assert_eq!(decide_origin(None, &strings(&["*"])), "*");
    assert_eq!(decide_origin(None, &strings(&[])), "*");
}

#[test]
fn listed_origin_is_echoed() {
    assert_eq!(
        decide_origin(Some("https://example.com"), &strings(&["https://example.com"])),
        "https://example.com"
    );
}

#[test]
fn unlisted_origin_gets_null() {
    assert_eq!(
        decide_origin(Some("https://evil.com"), &strings(&["https://a.com", "https://b.com"])),
        "null"
    );
}

#[test]
fn wildcard_list_does_not_match_concrete_origin() {
    assert_eq!(decide_origin(Some("https://evil.com"), &strings(&["*"])), "null");
}

#[test]
fn origin_match_is_case_sensitive() {
    assert_eq!(
        decide_origin(Some("https://A.com"), &strings(&["https://a.com"])),
        "null"
    );
}
