//! Core of an OAuth2-authenticated reverse-proxy gateway: a concurrency-safe
//! credential store, the authorization/redemption/refresh state machine, the
//! request builders for the OAuth exchanges, and a JSON field-path extractor
//! that projects a configured value out of an upstream response.
//!
//! Network and file I/O, TLS, and HTTP routing live outside this crate; the
//! functions here take and return plain values and carry the contracts.


pub mod conf;
pub mod json;
pub mod lifecycle;
pub mod oauth;
pub mod proxy;
pub mod store;
pub mod text;
