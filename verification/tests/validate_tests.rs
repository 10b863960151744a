use imgproxy::error::BadRequest;
use imgproxy::validate::{
    validate, MSG_BAD_DOMAIN, MSG_BAD_QUALITY, MSG_INVALID_HOST, MSG_INVALID_URL,
};

fn accept_none() -> Vec<String> {
    Vec::new()
}

fn err_message(r: Result<imgproxy::validate::TransformRequest, BadRequest>) -> &'static str {
    match r {
        Ok(_) => panic!("expected a validation failure"),
        Err(b) => b.0,
    }
}

#[test]
fn quality_zero_is_rejected() {
    let r = validate("https://mangadex.org/img/a.jpg", 100, 0, accept_none());
    assert_eq!(err_message(r), MSG_BAD_QUALITY);
    assert_eq!(
        MSG_BAD_QUALITY,
        "\"q\" parameter (quality) must be an integer between 1 and 100"
    );
}

#[test]
fn quality_above_hundred_is_rejected() {
    let r = validate("https://mangadex.org/img/a.jpg", 100, 101, accept_none());
    assert_eq!(err_message(r), MSG_BAD_QUALITY);
    let r = validate("https://mangadex.org/img/a.jpg", 100, 255, accept_none());
    assert_eq!(err_message(r), MSG_BAD_QUALITY);
}

#[test]
fn quality_bounds_are_accepted() {
    assert!(validate("https://mangadex.org/img/a.jpg", 100, 1, accept_none()).is_ok());
    assert!(validate("https://mangadex.org/img/a.jpg", 100, 100, accept_none()).is_ok());
}

#[test]
fn quality_failure_reports_status_400() {
    let r = validate("https://mangadex.org/img/a.jpg", 100, 0, accept_none());
    match r {
        Ok(_) => panic!("expected a validation failure"),
        Err(b) => assert_eq!(b.status(), 400),
    }
}

#[test]
fn unparsable_url_is_rejected() {
    let r = validate("not a url at all", 100, 80, accept_none());
    assert_eq!(err_message(r), MSG_INVALID_URL);
    assert_eq!(MSG_INVALID_URL, "\"url\" parameter is invalid");
}

#[test]
fn relative_url_is_rejected() {
    let r = validate("/img/a.jpg", 100, 80, accept_none());
    assert_eq!(err_message(r), MSG_INVALID_URL);
}

#[test]
fn url_without_host_is_rejected() {
    let r = validate("data:text/plain,hello", 100, 80, accept_none());
    assert_eq!(err_message(r), MSG_INVALID_HOST);
    assert_eq!(
        MSG_INVALID_HOST,
        "\"url\" parameter is invalid due to an invalid host"
    );
}

#[test]
fn foreign_host_is_rejected() {
    let r = validate("https://example.com/img/a.jpg", 100, 80, accept_none());
    assert_eq!(err_message(r), MSG_BAD_DOMAIN);
    assert_eq!(
        MSG_BAD_DOMAIN,
        "\"url\" parameter must be a domain or subdomain of mangadex.org"
    );
}

#[test]
fn host_check_precedes_quality_check() {
    let r = validate("https://example.com/img/a.jpg", 100, 0, accept_none());
    assert_eq!(err_message(r), MSG_BAD_DOMAIN);
}

#[test]
fn allowed_host_and_subdomain_are_accepted() {
    let r = validate("https://mangadex.org/img/a.jpg", 100, 80, accept_none());
    let req = r.unwrap();
    assert_eq!(req.url, "https://mangadex.org/img/a.jpg");
    assert_eq!(req.width, 100);
    assert_eq!(req.quality, 80);
    assert!(validate("https://uploads.mangadex.org/a.png", 1, 50, accept_none()).is_ok());
}

#[test]
fn suffix_match_is_textual_not_label_wise() {
    // The check is a plain string-suffix test, as the surrounding system
    // observably performs it: a host merely ending in the allowed text
    // passes.
    assert!(validate("https://notmangadex.org/a.png", 100, 80, accept_none()).is_ok());
}

#[test]
fn width_is_not_validated() {
    assert!(validate("https://mangadex.org/a.png", 0, 80, accept_none()).is_ok());
}
