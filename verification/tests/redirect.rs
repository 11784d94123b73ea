use punchout_mock::encoding::percent_encode;
use punchout_mock::redirect::{build_query, build_redirect, hook_url_bytes, LoginConfig};

fn b(s: &str) -> Vec<u8> {
    s.as_bytes().to_vec()
}

fn s(v: &[u8]) -> String {
    String::from_utf8(v.to_vec()).unwrap()
}

fn config(with_query: bool) -> LoginConfig {
    LoginConfig {
        login_base: b("https://punchout.example/login"),
        login_query: if with_query { Some(b("lang=de")) } else { None },
        self_base_url: b("http://localhost:8080/"),
    }
}

#[test]
fn percent_encoding_changes_reserved_bytes() {
    assert_eq!(s(&percent_encode(&b("a b/c?d=e&f"))), "a%20b%2Fc%3Fd%3De%26f");
    assert_eq!(s(&percent_encode(&b("AZaz09-._~"))), "AZaz09-._~");
    assert_eq!(s(&percent_encode(&b(""))), "");
    // Non-ASCII input is encoded byte for byte, uppercase hex.
    assert_eq!(s(&percent_encode(&"é".as_bytes().to_vec())), "%C3%A9");
}

#[test]
fn hook_url_names_the_call_up_route() {
    assert_eq!(
        s(&hook_url_bytes(&b("http://localhost:8080/"), &b("77-0"))),
        "http://localhost:8080/oci-call-up/77-0"
    );
}

#[test]
fn query_joins_encoded_pairs() {
    let params = vec![(b("A"), b("1 2")), (b("B&C"), b("x"))];
    assert_eq!(s(&build_query(&params)), "A=1%202&B%26C=x");
    assert_eq!(s(&build_query(&vec![])), "");
}

#[test]
fn redirect_with_product_hint_carries_deep_link() {
    let url = s(&build_redirect(&config(false), &b("77-0"), Some(42)));
    assert!(url.starts_with("https://punchout.example/login?"));
    let query = url.split_once('?').unwrap().1.to_string();
    assert!(query.split('&').any(|p| p == "PRODUCTID=42"));
    assert!(query.split('&').any(|p| p == "FUNCTION=DETAILADD"));
    assert!(query.split('&').any(|p| p == "OCI_VERSION=4.0"));
    assert!(query.split('&').any(|p| p == "OPI_VERSION=1.0"));
    assert!(query.split('&').any(|p| p == "http_content_charset=utf-8"));
    assert!(query.split('&').any(|p| p == "returntarget=_parent"));
    assert!(query.contains("HOOK_URL=http%3A%2F%2Flocalhost%3A8080%2Foci-call-up%2F77-0"));
}

#[test]
fn redirect_without_product_hint_omits_deep_link() {
    let url = s(&build_redirect(&config(false), &b("77-0"), None));
    assert!(!url.contains("PRODUCTID"));
    assert!(!url.contains("FUNCTION"));
    assert!(url.contains("OCI_VERSION=4.0"));
    assert!(url.contains("OPI_VERSION=1.0"));
    assert!(url.contains("HOOK_URL=http%3A%2F%2Flocalhost%3A8080%2Foci-call-up%2F77-0"));
}

#[test]
fn redirect_appends_after_the_existing_query() {
    let url = s(&build_redirect(&config(true), &b("77-0"), None));
    // The query the login URI already had comes first, untouched; the
    // assembled parameters follow it.
    assert!(url.starts_with("https://punchout.example/login?lang=de&"));
    let query = url.split_once('?').unwrap().1.to_string();
    assert!(query.split('&').any(|p| p == "lang=de"));
    assert!(query.split('&').any(|p| p == "OCI_VERSION=4.0"));
    assert_eq!(url.matches('?').count(), 1);
}
