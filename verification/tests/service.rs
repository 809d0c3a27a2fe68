use isqr::{
    create, generate_identifier, handle_create, qr_for_short_url, request_config,
    resolution_from_read, resolve, validate_destination, CreateError, MappingRecord,
    MappingStore, Resolution,
};

const TS: u64 = 1_700_000_000_000;

#[test]
fn create_then_resolve_round_trip() {
    let mut store = MappingStore::new();
    let out = create(
        &mut store,
        "https://example.com",
        Some("alice@example.com"),
        "short.example",
        true,
        TS,
    )
    .expect("creation should succeed");
    let id = generate_identifier(TS);
    assert_eq!(out.short_url, format!("https://short.example/{id}"));
    match resolve(&mut store, &id) {
        Resolution::Redirect(target) => assert_eq!(target, "https://example.com"),
        other => panic!("expected a redirect, got {other:?}"),
    }
}

#[test]
fn create_empty_url_is_client_error_with_zero_writes() {
    let mut store = MappingStore::new();
    let r = create(&mut store, "", None, "short.example", true, TS);
    assert_eq!(r.err(), Some(CreateError::EmptyUrl));
    assert_eq!(store.write_count(), 0);
    assert_eq!(CreateError::EmptyUrl.http_status(), 400);
    assert_eq!(CreateError::EmptyUrl.message(), "URL is required");
}

#[test]
fn create_performs_exactly_one_write_and_no_read() {
    let mut store = MappingStore::new();
    create(&mut store, "https://example.com", None, "short.example", true, TS)
        .expect("creation should succeed");
    assert_eq!(store.write_count(), 1);
    assert_eq!(store.read_count(), 0);
}

#[test]
fn resolve_empty_identifier_is_not_found_without_a_read() {
    let mut store = MappingStore::new();
    assert!(matches!(resolve(&mut store, ""), Resolution::NotFound));
    assert_eq!(store.read_count(), 0);
}

#[test]
fn resolve_unknown_identifier_is_not_found_with_one_read() {
    let mut store = MappingStore::new();
    assert!(matches!(
        resolve(&mut store, "unknown123"),
        Resolution::NotFound
    ));
    assert_eq!(store.read_count(), 1);
}

#[test]
fn identical_timestamp_creations_collide_and_the_second_wins() {
    let mut store = MappingStore::new();
    create(&mut store, "https://first.example", None, "short.example", true, TS)
        .expect("first creation should succeed");
    create(&mut store, "https://second.example", None, "short.example", true, TS)
        .expect("second creation should succeed");
    assert_eq!(store.write_count(), 2);
    let id = generate_identifier(TS);
    match resolve(&mut store, &id) {
        Resolution::Redirect(target) => assert_eq!(target, "https://second.example"),
        other => panic!("expected a redirect, got {other:?}"),
    }
}

#[test]
fn destination_validation_rejects_only_the_empty_string() {
    assert_eq!(validate_destination("").err(), Some(CreateError::EmptyUrl));
    assert!(validate_destination("https://example.com").is_ok());
    assert!(validate_destination("no scheme at all").is_ok());
}

#[test]
fn resolution_from_read_decides_the_redirect() {
    match resolution_from_read(Some(String::from("https://example.com"))) {
        Resolution::Redirect(target) => assert_eq!(target, "https://example.com"),
        other => panic!("expected a redirect, got {other:?}"),
    }
    assert!(matches!(
        resolution_from_read(Some(String::from("no scheme at all"))),
        Resolution::StoredUrlInvalid
    ));
    assert!(matches!(resolution_from_read(None), Resolution::NotFound));
}

#[test]
fn distinct_timestamps_keep_distinct_records() {
    let mut store = MappingStore::new();
    let urls = [
        "https://one.example",
        "https://two.example",
        "https://three.example",
    ];
    for (i, url) in urls.iter().enumerate() {
        create(&mut store, url, None, "short.example", true, TS + i as u64)
            .expect("creation should succeed");
    }
    assert_eq!(store.write_count(), 3);
    for (i, url) in urls.iter().enumerate() {
        let id = generate_identifier(TS + i as u64);
        match resolve(&mut store, &id) {
            Resolution::Redirect(target) => assert_eq!(&target, url),
            other => panic!("expected a redirect, got {other:?}"),
        }
    }
}

#[test]
fn malformed_stored_url_is_a_server_fault_not_a_not_found() {
    let mut store = MappingStore::new();
    create(&mut store, "no scheme at all", None, "short.example", true, TS)
        .expect("a malformed but non-empty URL is accepted and stored as-is");
    let id = generate_identifier(TS);
    assert!(matches!(
        resolve(&mut store, &id),
        Resolution::StoredUrlInvalid
    ));
}

#[test]
fn store_put_overwrites_and_get_finds_by_exact_key() {
    let mut store = MappingStore::new();
    store.put(
        String::from("abc123"),
        MappingRecord {
            destination_url: String::from("https://one.example"),
            created_by: String::from("alice@example.com"),
            created_at_ms: TS,
        },
    );
    store.put(
        String::from("abc123"),
        MappingRecord {
            destination_url: String::from("https://two.example"),
            created_by: String::from("bob@example.com"),
            created_at_ms: TS + 1,
        },
    );
    assert_eq!(store.write_count(), 2);
    assert_eq!(
        store.get("abc123"),
        Some(String::from("https://two.example"))
    );
    assert_eq!(store.get("abc12"), None);
    assert_eq!(store.read_count(), 2);
}

#[test]
fn qr_rendering_produces_svg_markup_encoding_the_short_url() {
    let short_url = "https://short.example/AAAAAA";
    let svg = qr_for_short_url(short_url).expect("rendering should succeed");
    assert!(svg.contains("<svg"));
    let width: u32 = svg
        .split("width=\"")
        .nth(1)
        .and_then(|rest| rest.split('"').next())
        .and_then(|w| w.parse().ok())
        .expect("the markup should carry a width");
    assert!(width >= 300);
    assert_ne!(svg, short_url);
}

#[test]
fn renderer_failure_is_a_server_fault_after_the_write() {
    let mut store = MappingStore::new();
    // A short URL too long for any QR version makes the renderer fail; the
    // record is already written by then, and stays.
    let huge_host = "h".repeat(4000);
    let r = create(
        &mut store,
        "https://example.com",
        None,
        &huge_host,
        true,
        TS,
    );
    assert_eq!(r.err(), Some(CreateError::RendererFailure));
    assert_eq!(store.write_count(), 1);
    assert_eq!(CreateError::RendererFailure.http_status(), 500);
    assert_eq!(
        CreateError::RendererFailure.message(),
        "Failed to generate QR code"
    );
    let id = generate_identifier(TS);
    match resolve(&mut store, &id) {
        Resolution::Redirect(target) => assert_eq!(target, "https://example.com"),
        other => panic!("expected a redirect, got {other:?}"),
    }
}

#[test]
fn host_header_selects_scheme_and_falls_back_locally() {
    let local = request_config(Some("localhost:8787"));
    assert!(!local.secure);
    assert_eq!(local.host, "localhost:8787");

    let absent = request_config(None);
    assert!(!absent.secure);
    assert_eq!(absent.host, "localhost:8787");

    let deployed = request_config(Some("short.example"));
    assert!(deployed.secure);
    assert_eq!(deployed.host, "short.example");
}

#[test]
fn create_on_local_host_uses_insecure_scheme() {
    let mut store = MappingStore::new();
    let cfg = request_config(None);
    let out = create(
        &mut store,
        "https://example.com",
        None,
        &cfg.host,
        cfg.secure,
        TS,
    )
    .expect("creation should succeed");
    let id = generate_identifier(TS);
    assert_eq!(out.short_url, format!("http://localhost:8787/{id}"));
}
