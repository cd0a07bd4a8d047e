//! A small client for a remote semantic-version resolution service.
//!
//! Each operation builds the address of one resource of the service, makes a
//! single blocking GET through libcurl, and turns what came back into a typed
//! result. Everything after the transfer (decoding, line splitting and the
//! mapping of failures onto [`ApiError`]) is verified.
pub mod client;
pub mod error;
pub mod lines;
pub mod transport;

pub use client::{
    body_lines, body_text, resolve, resolve_url, stable, stable_url, unstable, unstable_url,
    versions, versions_url,
};
pub use error::ApiError;
pub use lines::lines;
