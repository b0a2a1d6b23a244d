//! A small, fully verified core for an edge HTTP endpoint that reflects
//! geolocation request headers back as a JSON document with permissive
//! cross-origin headers.
//!
//! The crate is organised around plain values: header maps, configuration
//! strings and responses are ordinary structs of `String` and `Vec`, so that
//! every decision the endpoint makes — how the configured allow-list is
//! parsed, which `Access-Control-Allow-Origin` value is emitted, and the
//! exact JSON body — is stated in contracts and proved.

pub mod cors;
pub mod headers;
pub mod json;
pub mod respond;
pub mod text;
