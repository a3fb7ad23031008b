use auth_core::middleware::{csrf_middleware, is_bad_request, is_safe_method};
use auth_core::result::AppError;

const BASE: &str = "https://example.org/";

#[test]
fn a_post_without_referer_is_rejected() {
    let r = csrf_middleware("POST", None, None, BASE);
    assert!(matches!(r, Err(AppError::Status(400))));
    assert_eq!(r.unwrap_err().http_reason(), "Bad Request");
}

#[test]
fn a_post_whose_referer_is_the_base_url_is_accepted() {
    assert!(csrf_middleware("POST", Some(BASE), None, BASE).is_ok());
    assert!(csrf_middleware("POST", Some(BASE), Some("same-origin"), BASE).is_ok());
    assert!(csrf_middleware("DELETE", Some("https://example.org/account"), None, BASE).is_ok());
}

#[test]
fn a_referer_from_elsewhere_is_rejected() {
    for referer in [
        "https://example.com/",
        "https://example.org",
        "http://example.org/",
        "https://evil.example/https://example.org/",
        " https://example.org/",
        "",
    ] {
        assert!(csrf_middleware("POST", Some(referer), None, BASE).is_err(), "{}", referer);
    }
}

#[test]
fn a_cross_site_fetch_is_rejected_whatever_the_referer() {
    assert!(csrf_middleware("POST", Some(BASE), Some("cross-site"), BASE).is_err());
    assert!(csrf_middleware("PUT", Some(BASE), Some("cross-site"), BASE).is_err());
    assert!(csrf_middleware("POST", Some(BASE), Some("same-site"), BASE).is_ok());
    assert!(csrf_middleware("POST", Some(BASE), Some("none"), BASE).is_ok());
    assert!(csrf_middleware("POST", Some(BASE), Some("Cross-Site"), BASE).is_ok());
}

#[test]
fn safe_methods_pass_unexamined() {
    for method in ["GET", "HEAD", "OPTIONS", "TRACE"] {
        assert!(is_safe_method(method));
        assert!(csrf_middleware(method, None, Some("cross-site"), BASE).is_ok());
    }
    for method in ["POST", "PUT", "DELETE", "PATCH", "CONNECT", "get", "", "GETS"] {
        assert!(!is_safe_method(method));
        assert!(csrf_middleware(method, None, None, BASE).is_err());
    }
}

#[test]
fn the_headers_alone() {
    assert!(is_bad_request(None, None, BASE));
    assert!(is_bad_request(None, Some("same-origin"), BASE));
    assert!(!is_bad_request(Some("https://example.org/page?x=1"), None, BASE));
    assert!(is_bad_request(Some("https://example.org/page"), Some("cross-site"), BASE));
    assert!(!is_bad_request(Some("anything"), None, ""));
}
