use storefront::extract::{
    get_attribute_value, get_cookie_value, get_element_value, get_header_attribute,
};
use storefront::http::HttpHeader;

fn header(name: &str, value: &str) -> HttpHeader {
    HttpHeader {
        name: name.to_string(),
        value: value.to_string(),
    }
}

#[test]
fn element_value_case_insensitive_pair() {
    assert_eq!(get_element_value("<Foo>bar</foo>", "Foo").unwrap(), "bar");
}

#[test]
fn element_value_between_first_gt_and_close() {
    let body = "<AuthenticateResponse><StateContext attr=\"1\">ctx42</StateContext></AuthenticateResponse>";
    assert_eq!(get_element_value(body, "StateContext").unwrap(), "ctx42");
}

#[test]
fn element_value_prefix_match_quirk() {
    // `<Post` matches `<Postback` as a prefix; the value starts after the
    // first `>` that follows.
    let body = "<Postback>/p/q</Postback>";
    assert_eq!(get_element_value(body, "Post").unwrap(), "/p/q");
}

#[test]
fn element_value_missing_open_tag() {
    let err = get_element_value("<Other>x</Other>", "Postback").unwrap_err();
    assert_eq!(err.name, "Postback");
}

#[test]
fn element_value_unterminated_tag() {
    let err = get_element_value("<Postback", "Postback").unwrap_err();
    assert_eq!(err.name, "Postback");
}

#[test]
fn element_value_missing_close_tag() {
    let err = get_element_value("<Postback>/p", "Postback").unwrap_err();
    assert_eq!(err.name, "Postback");
}

#[test]
fn attribute_value_basic() {
    assert_eq!(
        get_attribute_value("<a href=\"http://x\">", "a", "href").unwrap(),
        "http://x"
    );
}

#[test]
fn attribute_value_multi_word_marker() {
    let body = "<methods><method name=\"ExplicitForms\" url=\"/auth/explicit\"/><method name=\"CitrixAGBasic\" url=\"/auth/basic\"/></methods>";
    assert_eq!(
        get_attribute_value(body, "method name=\"ExplicitForms\"", "url").unwrap(),
        "/auth/explicit"
    );
    assert_eq!(
        get_attribute_value(body, "method name=\"CitrixAGBasic\"", "url").unwrap(),
        "/auth/basic"
    );
}

#[test]
fn attribute_value_missing_element_reports_element() {
    let err = get_attribute_value("<b c=\"1\">", "a", "href").unwrap_err();
    assert_eq!(err.name, "a");
}

#[test]
fn attribute_value_missing_attribute_reports_attribute() {
    let err = get_attribute_value("<a c=\"1\">", "a", "href").unwrap_err();
    assert_eq!(err.name, "href");
}

#[test]
fn attribute_value_exact_case_marker() {
    // The marker match is exact-case, unlike the element scan.
    let err = get_attribute_value("<A href=\"x\">", "a", "href").unwrap_err();
    assert_eq!(err.name, "a");
}

#[test]
fn attribute_value_first_occurrence_can_mismatch() {
    // The scan takes the first occurrence of the attribute name, even as
    // a substring of another attribute: a preserved quirk.
    let body = "<a data-href=\"wrong\" href=\"right\">";
    assert_eq!(get_attribute_value(body, "a", "href").unwrap(), "wrong");
}

#[test]
fn cookie_value_basic() {
    let headers = vec![header("Set-Cookie", "CsrfToken=abc123; Path=/")];
    assert_eq!(get_cookie_value(&headers, "CsrfToken").unwrap(), "abc123");
}

#[test]
fn cookie_value_header_name_case_insensitive() {
    let headers = vec![header("SET-COOKIE", "CsrfToken=abc123; Path=/")];
    assert_eq!(get_cookie_value(&headers, "CsrfToken").unwrap(), "abc123");
}

#[test]
fn cookie_value_runs_to_end_without_semicolon() {
    let headers = vec![header("set-cookie", "CsrfToken=abc123")];
    assert_eq!(get_cookie_value(&headers, "CsrfToken").unwrap(), "abc123");
}

#[test]
fn cookie_value_skips_other_cookies() {
    let headers = vec![
        header("set-cookie", "Other=zzz; Path=/"),
        header("set-cookie", "CsrfToken=abc123; Path=/"),
    ];
    assert_eq!(get_cookie_value(&headers, "CsrfToken").unwrap(), "abc123");
}

#[test]
fn cookie_value_not_found() {
    let headers = vec![header("set-cookie", "Other=zzz; Path=/")];
    let err = get_cookie_value(&headers, "CsrfToken").unwrap_err();
    assert_eq!(err.name, "CsrfToken");
}

#[test]
fn cookie_value_ignores_non_cookie_headers() {
    let headers = vec![header("content-type", "CsrfToken=abc123")];
    assert!(get_cookie_value(&headers, "CsrfToken").is_err());
}

#[test]
fn cookie_value_name_at_end_yields_nothing() {
    // No room for the skipped `=` after the name: that header yields
    // nothing.
    let headers = vec![header("set-cookie", "CsrfToken")];
    assert!(get_cookie_value(&headers, "CsrfToken").is_err());
}

#[test]
fn cookie_value_empty_value_after_equals() {
    let headers = vec![header("set-cookie", "CsrfToken=")];
    assert_eq!(get_cookie_value(&headers, "CsrfToken").unwrap(), "");
}

#[test]
fn header_attribute_basic() {
    let headers = vec![header(
        "CitrixWebReceiver-Authenticate",
        "CitrixAuth realm=\"store\", location=\"auth/methods\"",
    )];
    assert_eq!(
        get_header_attribute(&headers, "CitrixWebReceiver-Authenticate", "location").unwrap(),
        "auth/methods"
    );
}

#[test]
fn header_attribute_exact_header_name() {
    let headers = vec![header(
        "citrixwebreceiver-authenticate",
        "location=\"auth/methods\"",
    )];
    // The header name must match exactly; a differently-cased name is
    // not found.
    let err =
        get_header_attribute(&headers, "CitrixWebReceiver-Authenticate", "location").unwrap_err();
    assert_eq!(err.name, "location");
}

#[test]
fn header_attribute_runs_to_end_without_quote() {
    let headers = vec![header("h", "location=\"unterminated")];
    assert_eq!(
        get_header_attribute(&headers, "h", "location").unwrap(),
        "unterminated"
    );
}
