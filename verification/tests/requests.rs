//! What the request log shows, and request identifiers.

use lied::id::Uuid;
use lied::request::{
    is_param, request_id_from_parts, request_id_or, sanitized_uri, UriParts, CSRF_QUERY_PARAM,
};

fn sanitize(uri: &str) -> String {
    let uri: axum::http::Uri = uri.parse().unwrap();
    sanitized_uri(&UriParts {
        path: uri.path().to_string(),
        query: uri.query().map(|q| q.to_string()),
        text: uri.to_string(),
    })
}

#[test]
fn sanitized_uri_redacts_the_csrf_token_but_keeps_the_rest() {
    // The console's multipart forms carry the session's CSRF token in the
    // URL; the request log must never persist its value.
    assert_eq!(
        sanitize("/admin/orgs/1/arrangements/2/files?csrf=SECRET-TOKEN"),
        "/admin/orgs/1/arrangements/2/files?csrf=[redacted]"
    );
    // The key survives (so the log still shows it was sent) and unrelated
    // params stay readable for debugging.
    assert_eq!(
        sanitize("/admin/files?limit=50&csrf=SECRET-TOKEN&sort=name"),
        "/admin/files?limit=50&csrf=[redacted]&sort=name"
    );
    // A valueless or repeated occurrence is still covered.
    assert_eq!(
        sanitize("/admin/files?csrf"),
        "/admin/files?csrf=[redacted]"
    );
    assert_eq!(
        sanitize("/admin/files?csrf=a&csrf=b"),
        "/admin/files?csrf=[redacted]&csrf=[redacted]"
    );
}

#[test]
fn sanitized_uri_leaves_untainted_uris_untouched() {
    assert_eq!(sanitize("/admin/orgs"), "/admin/orgs");
    assert_eq!(
        sanitize("/v1/arrangements?q=mozart&limit=50"),
        "/v1/arrangements?q=mozart&limit=50"
    );
    // A param that merely *contains* the name is not the token.
    assert_eq!(
        sanitize("/v1/x?csrfish=keep&my_csrf=keep"),
        "/v1/x?csrfish=keep&my_csrf=keep"
    );
}

#[test]
fn the_logged_uri_is_the_same_whatever_the_token() {
    assert_eq!(
        sanitize("/admin/files?a=1&csrf=one&b=2"),
        sanitize("/admin/files?a=1&csrf=another&b=2")
    );
}

#[test]
fn sanitizing_again_changes_nothing() {
    let once = sanitize("/admin/files?a=1&csrf=token");
    let again = sanitized_uri(&UriParts {
        path: "/admin/files".to_string(),
        query: Some(once.split_once('?').unwrap().1.to_string()),
        text: once.clone(),
    });
    assert_eq!(again, once);
}

#[test]
fn a_parameter_is_told_by_its_whole_name() {
    assert!(is_param("csrf=x", CSRF_QUERY_PARAM));
    assert!(is_param("csrf", CSRF_QUERY_PARAM));
    assert!(is_param("csrf=", CSRF_QUERY_PARAM));
    assert!(!is_param("csrfx=1", CSRF_QUERY_PARAM));
    assert!(!is_param("", CSRF_QUERY_PARAM));
}

#[test]
fn a_request_keeps_the_identifier_it_came_with() {
    let id = Uuid::now_v7();
    let fresh = Uuid { bits: 1 };
    assert_eq!(request_id_or(Some(&id.text()), fresh), id);
    assert_eq!(request_id_or(Some("nonsense"), fresh), fresh);
    assert_eq!(request_id_or(None, fresh), fresh);
    assert_eq!(request_id_from_parts(Some(&id.text())), id);
    let made = request_id_from_parts(None);
    assert_eq!((made.bits >> 76) & 0xf, 7);
    assert_ne!(made, request_id_from_parts(Some("nonsense")));
}

#[test]
fn identifiers_read_back_and_agree_with_the_usual_form() {
    let id = Uuid::now_v7();
    assert_eq!(Uuid::parse_str(&id.text()), Some(id));
    assert_eq!(id.text(), uuid::Uuid::from_u128(id.bits).to_string());
    assert_eq!(Uuid::parse_str("x"), None);
    let text = "67e55044-10b1-426f-9247-bb680e5fe0c8";
    assert_eq!(
        Uuid::parse_str(text).map(|u| u.bits),
        Some(0x67e5504410b1426f9247bb680e5fe0c8)
    );
    assert_eq!(
        Uuid::parse_str("67E5504410B1426F9247BB680E5FE0C8").map(|u| u.text()),
        Some(text.to_string())
    );
}
