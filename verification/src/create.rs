//! The creation orchestrator: validates an incoming destination URL,
//! generates an identifier, writes the mapping record, composes the short
//! URL and requests its QR rendering.

use vstd::prelude::*;
use vstd::string::StringExecFns;
use crate::identifier::{generate_identifier, spec_identifier};
use crate::qr::{qr_svg_of, render_qr_svg};
use crate::store::{MappingRecord, MappingStore, RecordModel};
use crate::text::{contains_substring, has_substring};

verus! {

/// Why a create request was rejected.
#[derive(Clone, Copy, Debug, PartialEq, Eq, Structural)]
pub enum CreateError {
    /// The request body is not a JSON object with a string `url` field.
    InvalidBody,
    /// The destination URL is empty.
    EmptyUrl,
    /// The QR renderer collaborator failed.
    RendererFailure,
}

impl CreateError {
    /// The class of the error: a client input error or a server fault.
    pub fn http_status(&self) -> (status: u16)
        ensures
            status == (match self {
                CreateError::InvalidBody => 400u16,
                CreateError::EmptyUrl => 400u16,
                CreateError::RendererFailure => 500u16,
            }),
    {
        match self {
            CreateError::InvalidBody => 400,
            CreateError::EmptyUrl => 400,
            CreateError::RendererFailure => 500,
        }
    }

    /// A short human-readable message for the error response.
    pub fn message(&self) -> (m: String)
        ensures
            m@ == (match self {
                CreateError::InvalidBody => "Invalid request body"@,
                CreateError::EmptyUrl => "URL is required"@,
                CreateError::RendererFailure => "Failed to generate QR code"@,
            }),
    {
        match self {
            CreateError::InvalidBody => String::from_str("Invalid request body"),
            CreateError::EmptyUrl => String::from_str("URL is required"),
            CreateError::RendererFailure => String::from_str("Failed to generate QR code"),
        }
    }
}

/// What a successful creation returns: the short redirect link and the SVG
/// markup of a QR image encoding it.
pub struct CreateOutcome {
    pub short_url: String,
    pub qr_code: String,
}

/// The identity recorded when the request carries no authenticated identity.
pub open spec fn fallback_identity() -> Seq<char> {
    "local@example.com"@
}

/// The host used when the request carries no host header.
pub open spec fn fallback_host() -> Seq<char> {
    "localhost:8787"@
}

/// The marker that makes a host look like a local development address.
pub open spec fn local_marker() -> Seq<char> {
    "localhost"@
}

/// The identity recorded for a creation: the authenticated identity when
/// present, the fallback otherwise.
pub open spec fn spec_created_by(requester_identity: Option<&str>) -> Seq<char> {
    match requester_identity {
        Some(s) => s@,
        None => fallback_identity(),
    }
}

/// The record a creation writes.
pub open spec fn spec_new_record(
    destination_url: Seq<char>,
    requester_identity: Option<&str>,
    timestamp_ms: u64,
) -> RecordModel {
    RecordModel {
        destination_url,
        created_by: spec_created_by(requester_identity),
        created_at_ms: timestamp_ms,
    }
}

/// The externally visible short URL: `scheme://host/identifier`.
pub open spec fn spec_short_url(secure: bool, host: Seq<char>, identifier: Seq<char>) -> Seq<
    char,
> {
    (if secure {
        "https"@
    } else {
        "http"@
    }) + "://"@ + host + "/"@ + identifier
}

/// The externally visible host and scheme of a request, reduced to plain
/// configuration for the orchestrator.
pub struct RequestConfig {
    pub host: String,
    pub secure: bool,
}

/// The thin boundary adapter over the host header: fall back to the local
/// development host when the header is absent, and select the insecure
/// scheme exactly when the host contains a local-development marker.
pub fn request_config(host_header: Option<&str>) -> (c: RequestConfig)
    ensures
        c.host@ == (match host_header {
            Some(h) => h@,
            None => fallback_host(),
        }),
        c.secure == !has_substring(c.host@, local_marker()),
{
    let host: String = match host_header {
        Some(h) => h.to_owned(),
        None => String::from_str("localhost:8787"),
    };
    let secure = !contains_substring(host.as_str(), "localhost");
    RequestConfig { host, secure }
}

/// Composes `scheme://host/identifier`.
pub fn compose_short_url(secure: bool, host: &str, identifier: &str) -> (u: String)
    ensures
        u@ == spec_short_url(secure, host@, identifier@),
{
    let mut u: String = if secure {
        String::from_str("https")
    } else {
        String::from_str("http")
    };
    u.append("://");
    u.append(host);
    u.append("/");
    u.append(identifier);
    proof {
        assert(u@ =~= spec_short_url(secure, host@, identifier@));
    }
    u
}

/// Validates an incoming destination URL: only an empty one is rejected; a
/// malformed but non-empty string is accepted.
pub fn validate_destination(destination_url: &str) -> (r: Result<(), CreateError>)
    ensures
        r is Ok <==> destination_url@.len() > 0,
        r matches Err(e) ==> e == CreateError::EmptyUrl,
{
    if destination_url.is_empty() {
        Err(CreateError::EmptyUrl)
    } else {
        Ok(())
    }
}

/// Requests a QR rendering of `short_url`: the markup the renderer produces
/// for it, or a server error exactly when the renderer fails on it.
pub fn qr_for_short_url(short_url: &str) -> (r: Result<String, CreateError>)
    ensures
        r matches Ok(s) ==> qr_svg_of(short_url@) == Some(s@),
        r matches Err(e) ==> e == CreateError::RendererFailure && qr_svg_of(short_url@) is None,
{
    match render_qr_svg(short_url) {
        Some(s) => Ok(s),
        None => Err(CreateError::RendererFailure),
    }
}

/// Creates a short link for `destination_url`.
///
/// An empty destination is rejected with a client error and writes nothing;
/// a non-empty one — malformed or not — is stored as-is under the identifier
/// generated for `timestamp_ms`, overwriting any record that already carried
/// that identifier. The write happens before the QR rendering, so a renderer
/// failure leaves the record in the store and is surfaced as a server error.
pub fn create(
    store: &mut MappingStore,
    destination_url: &str,
    requester_identity: Option<&str>,
    host: &str,
    secure: bool,
    timestamp_ms: u64,
) -> (r: Result<CreateOutcome, CreateError>)
    requires
        old(store).wf(),
        old(store).spec_writes() < u64::MAX,
    ensures
        final(store).wf(),
        final(store).spec_reads() == old(store).spec_reads(),
        destination_url@.len() == 0 ==> r == Err::<CreateOutcome, CreateError>(
            CreateError::EmptyUrl,
        ) && final(store)@ == old(store)@ && final(store).spec_writes() == old(
            store,
        ).spec_writes(),
        destination_url@.len() > 0 ==> ({
            let id = spec_identifier(timestamp_ms);
            let su = spec_short_url(secure, host@, id);
            &&& final(store)@ == old(store)@.insert(
                id,
                spec_new_record(destination_url@, requester_identity, timestamp_ms),
            )
            &&& final(store).spec_writes() == old(store).spec_writes() + 1
            &&& match r {
                Ok(out) => out.short_url@ == su && qr_svg_of(su) == Some(out.qr_code@),
                Err(e) => e == CreateError::RendererFailure && qr_svg_of(su) is None,
            }
        }),
{
    if let Err(e) = validate_destination(destination_url) {
        return Err(e);
    }
    let identifier = generate_identifier(timestamp_ms);
    let created_by: String = match requester_identity {
        Some(s) => s.to_owned(),
        None => String::from_str("local@example.com"),
    };
    let record = MappingRecord {
        destination_url: destination_url.to_owned(),
        created_by,
        created_at_ms: timestamp_ms,
    };
    let short_url = compose_short_url(secure, host, identifier.as_str());
    store.put(identifier, record);
    match qr_for_short_url(short_url.as_str()) {
        Ok(qr_code) => Ok(CreateOutcome { short_url, qr_code }),
        Err(e) => Err(e),
    }
}

/// The `url` string field of a JSON object body, when the body is a JSON
/// object carrying one: a function of the body text alone.
pub uninterp spec fn json_url_field(body: Seq<char>) -> Option<Seq<char>>;

/// Relies on `serde_json::from_str`, `serde_json::Value::get` and
/// `serde_json::Value::as_str`: parsing is deterministic, and the result is
/// the `url` string field of the body, absent when the body is not a JSON
/// object or the field is missing or not a string.
#[verifier::external_body]
fn parse_create_body(body: &str) -> (r: Option<String>)
    ensures
        r matches Some(u) ==> json_url_field(body@) == Some(u@),
        r is None ==> json_url_field(body@) is None,
{
    let value: serde_json::Value = match serde_json::from_str(body) {
        Ok(v) => v,
        Err(_) => return None,
    };
    match value.get("url").and_then(|u| u.as_str()) {
        Some(s) => Some(s.to_owned()),
        None => None,
    }
}

/// Handles a whole create request: extracts the destination URL from the
/// JSON body, determines host and scheme from the host header, and runs the
/// creation. A body without a `url` string field is a client error and
/// writes nothing.
pub fn handle_create(
    store: &mut MappingStore,
    body: &str,
    requester_identity: Option<&str>,
    host_header: Option<&str>,
    timestamp_ms: u64,
) -> (r: Result<CreateOutcome, CreateError>)
    requires
        old(store).wf(),
        old(store).spec_writes() < u64::MAX,
    ensures
        final(store).wf(),
        final(store).spec_reads() == old(store).spec_reads(),
        ({
            let host = match host_header {
                Some(h) => h@,
                None => fallback_host(),
            };
            let secure = !has_substring(host, local_marker());
            match json_url_field(body@) {
                None => r == Err::<CreateOutcome, CreateError>(CreateError::InvalidBody)
                    && final(store)@ == old(store)@ && final(store).spec_writes() == old(
                    store,
                ).spec_writes(),
                Some(url) => {
                    &&& url.len() == 0 ==> r == Err::<CreateOutcome, CreateError>(
                        CreateError::EmptyUrl,
                    ) && final(store)@ == old(store)@ && final(store).spec_writes() == old(
                        store,
                    ).spec_writes()
                    &&& url.len() > 0 ==> ({
                        let id = spec_identifier(timestamp_ms);
                        let su = spec_short_url(secure, host, id);
                        &&& final(store)@ == old(store)@.insert(
                            id,
                            spec_new_record(url, requester_identity, timestamp_ms),
                        )
                        &&& final(store).spec_writes() == old(store).spec_writes() + 1
                        &&& match r {
                            Ok(out) => out.short_url@ == su && qr_svg_of(su) == Some(
                                out.qr_code@,
                            ),
                            Err(e) => e == CreateError::RendererFailure && qr_svg_of(su) is None,
                        }
                    })
                },
            }
        }),
{
    match parse_create_body(body) {
        None => Err(CreateError::InvalidBody),
        Some(url) => {
            let config = request_config(host_header);
            create(
                store,
                url.as_str(),
                requester_identity,
                config.host.as_str(),
                config.secure,
                timestamp_ms,
            )
        },
    }
}

} // verus!
