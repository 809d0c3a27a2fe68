//! Core of a URL-shortening service that renders a QR code for each short
//! link: identifier generation, mapping persistence, creation orchestration
//! and redirect resolution.

pub mod create;
pub mod identifier;
pub mod laws;
pub mod qr;
pub mod resolve;
pub mod store;
pub mod text;

pub use create::{
    compose_short_url, create, handle_create, qr_for_short_url, request_config,
    validate_destination, CreateError, CreateOutcome, RequestConfig,
};
pub use identifier::generate_identifier;
pub use resolve::{resolution_from_read, resolve, Resolution};
pub use store::{MappingRecord, MappingStore};
