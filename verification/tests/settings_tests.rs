use storefront::headers::common_headers;
use storefront::http::HttpHeader;
use storefront::settings::Settings;

fn filled() -> Settings {
    Settings {
        base_uri: "https://gw.example.com/".to_string(),
        application_name: "MyApp".to_string(),
        login: "user".to_string(),
        passwd: "pw".to_string(),
        target: "".to_string(),
        maximization_active: false,
    }
}

#[test]
fn default_is_blank() {
    let s = Settings::default();
    assert!(s.base_uri.is_empty());
    assert!(s.application_name.is_empty());
    assert!(s.login.is_empty());
    assert!(s.passwd.is_empty());
    assert!(s.target.is_empty());
    assert!(!s.maximization_active);
}

#[test]
fn default_is_empty_and_invalid() {
    let s = Settings::default();
    assert!(s.is_empty());
    assert!(!s.is_valid());
}

#[test]
fn filled_settings_are_valid() {
    let s = filled();
    assert!(!s.is_empty());
    assert!(s.is_valid());
}

#[test]
fn unparseable_base_uri_is_invalid() {
    let mut s = filled();
    s.base_uri = "not a url".to_string();
    assert!(!s.is_valid());
}

#[test]
fn either_credential_field_suffices() {
    let mut s = filled();
    s.login = "".to_string();
    assert!(s.is_valid());
    s.passwd = "".to_string();
    assert!(!s.is_valid());
}

#[test]
fn common_headers_fixed_set() {
    let hs = common_headers(None, "https://gw.example.com/base").unwrap();
    assert_eq!(hs.len(), 4);
    assert_eq!(hs[0].name, "host");
    assert_eq!(hs[0].value, "gw.example.com");
    assert_eq!(hs[1].name, "origin");
    assert_eq!(hs[1].value, "https://gw.example.com/base");
    assert_eq!(hs[2].name, "X-Citrix-Isusinghttps");
    assert_eq!(hs[2].value, "Yes");
    assert_eq!(hs[3].name, "X-Requested-With");
    assert_eq!(hs[3].value, "XMLHttpRequest");
}

#[test]
fn common_headers_appends_custom() {
    let custom = vec![HttpHeader {
        name: "Csrf-Token".to_string(),
        value: "tok".to_string(),
    }];
    let hs = common_headers(Some(&custom), "https://gw.example.com/").unwrap();
    assert_eq!(hs.len(), 5);
    assert_eq!(hs[4].name, "Csrf-Token");
    assert_eq!(hs[4].value, "tok");
}

#[test]
fn common_headers_rejects_bad_base() {
    assert!(common_headers(None, "::::").is_err());
}

#[test]
fn common_headers_rejects_domainless_base() {
    assert!(common_headers(None, "https://192.168.0.1/").is_err());
}
