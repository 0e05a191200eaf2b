use actix_web::http::header::HeaderValue;
use blog_service::authentication::{
    credential, parse_auth_header, set_credential, AuthFailure, Authenticated,
    AuthenticationError, CredentialStore,
};
use blog_service::response::Payload;

fn reason(header: &[u8], key: &str) -> String {
    match parse_auth_header(header, key) {
        Ok(_) => String::from("accepted"),
        Err(e) => e.message().to_string(),
    }
}

#[test]
fn accepts_bearer_header_with_configured_credential() {
    assert!(parse_auth_header(b"Bearer s3cr3t", "s3cr3t").is_ok());
    assert!(parse_auth_header(b"Bearer a-much-longer_key.with~signs", "a-much-longer_key.with~signs").is_ok());
}

#[test]
fn accepts_empty_credential_after_single_space() {
    assert!(parse_auth_header(b"Bearer ", "").is_ok());
}

#[test]
fn missing_header_is_reported() {
    let mut store = CredentialStore::new();
    set_credential(&mut store, "key");
    match Authenticated::from_request(None, &store) {
        Ok(_) => panic!("accepted without a header"),
        Err(e) => assert_eq!(e.message(), "Missing Authorization header"),
    }
}

#[test]
fn from_request_accepts_and_refuses_by_the_stored_credential() {
    let mut store = CredentialStore::new();
    set_credential(&mut store, "key");
    assert!(Authenticated::from_request(Some(b"Bearer key"), &store).is_ok());
    match Authenticated::from_request(Some(b"Bearer other"), &store) {
        Ok(_) => panic!("accepted a wrong token"),
        Err(e) => assert_eq!(e.message(), "Invalid Authorization header token value"),
    }
}

#[test]
fn unreadable_header_is_reported() {
    assert_eq!(reason(b"Bearer \xffkey", "key"), "Invalid Authorization header, unable to parse");
    assert_eq!(reason(b"Bearer key\x7f", "key"), "Invalid Authorization header, unable to parse");
    assert_eq!(reason(b"Bearer\x01key", "key"), "Invalid Authorization header, unable to parse");
    assert_eq!(reason("Bearer k\u{e9}y".as_bytes(), "k\u{e9}y"), "Invalid Authorization header, unable to parse");
}

#[test]
fn unreadable_header_agrees_with_header_value() {
    let samples: Vec<&[u8]> = vec![b"Bearer \xffkey", b"Bearer key", b"Bearer\tkey", b"\x80", b"", b"~ ~"];
    for sample in samples {
        let value = HeaderValue::from_bytes(sample).unwrap();
        let unreadable = reason(value.as_bytes(), "key") == "Invalid Authorization header, unable to parse";
        assert_eq!(unreadable, value.to_str().is_err());
    }
}

#[test]
fn wrong_token_count_is_reported() {
    let expected = "Invalid Authorization header value, expected 'Bearer <token>'";
    assert_eq!(reason(b"", "key"), expected);
    assert_eq!(reason(b"Bearer", "key"), expected);
    assert_eq!(reason(b"Bearerkey", "key"), expected);
    assert_eq!(reason(b"Bearer  key", "key"), expected);
    assert_eq!(reason(b"Bearer key ", "key"), expected);
    assert_eq!(reason(b" Bearer key", "key"), expected);
    assert_eq!(reason(b"Bearer key extra", "key"), expected);
    assert_eq!(reason(b"Bearer\tkey", "key"), expected);
}

#[test]
fn credential_with_a_space_is_never_accepted() {
    assert_eq!(
        reason(b"Bearer a b", "a b"),
        "Invalid Authorization header value, expected 'Bearer <token>'"
    );
}

#[test]
fn wrong_scheme_is_reported() {
    let expected = "Invalid Authorization header method value, expected 'Bearer <token>'";
    assert_eq!(reason(b"Basic key", "key"), expected);
    assert_eq!(reason(b"bearer key", "key"), expected);
    assert_eq!(reason(b"Bearers key", "key"), expected);
    assert_eq!(reason(b"Bear key", "key"), expected);
    assert_eq!(reason(b" key", "key"), expected);
    assert_eq!(reason(b"key Bearer", "key"), expected);
}

#[test]
fn wrong_token_is_reported() {
    let expected = "Invalid Authorization header token value";
    assert_eq!(reason(b"Bearer nope", "key"), expected);
    assert_eq!(reason(b"Bearer ke", "key"), expected);
    assert_eq!(reason(b"Bearer keyy", "key"), expected);
    assert_eq!(reason(b"Bearer ", "key"), expected);
    assert_eq!(reason(b"Bearer KEY", "key"), expected);
    assert_eq!(reason(b"Bearer key", "k\u{e9}y"), expected);
}

#[test]
fn failure_messages_are_the_five_reasons() {
    assert_eq!(AuthFailure::MissingHeader.message(), "Missing Authorization header");
    assert_eq!(AuthFailure::Unparseable.message(), "Invalid Authorization header, unable to parse");
    assert_eq!(
        AuthFailure::Malformed.message(),
        "Invalid Authorization header value, expected 'Bearer <token>'"
    );
    assert_eq!(
        AuthFailure::WrongScheme.message(),
        "Invalid Authorization header method value, expected 'Bearer <token>'"
    );
    assert_eq!(AuthFailure::WrongToken.message(), "Invalid Authorization header token value");
}

#[test]
fn credential_is_written_once() {
    let mut store = CredentialStore::new();
    assert!(!store.is_set());
    set_credential(&mut store, "first");
    assert!(store.is_set());
    assert_eq!(credential(&store), "first");
    set_credential(&mut store, "second");
    assert_eq!(credential(&store), "first");
}

#[test]
fn authentication_error_keeps_its_message() {
    let e = AuthenticationError::new("nope");
    assert_eq!(e.message(), "nope");
    assert_eq!(e.status_code(), 401);
    let again = AuthenticationError::from(Err(e));
    assert_eq!(again.message(), "nope");
}

#[test]
fn authentication_error_response_is_unauthorized_envelope() {
    let e = AuthenticationError::new("Missing Authorization header");
    let response = e.error_response();
    assert_eq!(response.status, 401);
    match response.payload {
        Payload::Error(text) => assert_eq!(text, "{\"error\":\"Missing Authorization header\"}"),
        _ => panic!("not an error body"),
    }
}
