use isqr::{generate_identifier, handle_create, resolve, CreateError, MappingStore, Resolution};

const TS: u64 = 1_700_000_000_000;

#[test]
fn post_create_from_secure_host_then_redirect() {
    let mut store = MappingStore::new();
    let out = handle_create(
        &mut store,
        "{\"url\":\"https://example.com\"}",
        None,
        Some("short.example"),
        TS,
    )
    .expect("creation should succeed");
    let id = generate_identifier(TS);
    assert_eq!(out.short_url, format!("https://short.example/{id}"));
    assert!(out.qr_code.contains("<svg"));
    assert_eq!(store.write_count(), 1);
    match resolve(&mut store, &id) {
        Resolution::Redirect(target) => assert_eq!(target, "https://example.com"),
        other => panic!("expected a redirect, got {other:?}"),
    }
}

#[test]
fn post_create_without_url_field_is_rejected_with_zero_writes() {
    let mut store = MappingStore::new();
    let r = handle_create(&mut store, "{}", None, Some("short.example"), TS);
    assert_eq!(r.err(), Some(CreateError::InvalidBody));
    assert_eq!(store.write_count(), 0);
    assert_eq!(CreateError::InvalidBody.http_status(), 400);
    assert_eq!(CreateError::InvalidBody.message(), "Invalid request body");
}

#[test]
fn post_create_with_unparseable_body_is_rejected() {
    let mut store = MappingStore::new();
    let r = handle_create(&mut store, "not json at all", None, None, TS);
    assert_eq!(r.err(), Some(CreateError::InvalidBody));
    assert_eq!(store.write_count(), 0);
}

#[test]
fn post_create_with_non_string_url_field_is_rejected() {
    let mut store = MappingStore::new();
    let r = handle_create(&mut store, "{\"url\":5}", None, None, TS);
    assert_eq!(r.err(), Some(CreateError::InvalidBody));
    assert_eq!(store.write_count(), 0);
}

#[test]
fn post_create_with_empty_url_field_is_rejected() {
    let mut store = MappingStore::new();
    let r = handle_create(&mut store, "{\"url\":\"\"}", None, None, TS);
    assert_eq!(r.err(), Some(CreateError::EmptyUrl));
    assert_eq!(store.write_count(), 0);
}
