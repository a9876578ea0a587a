//! Typed core of a Matrix client: requests, responses, events and the sync cursor.
//!
//! Nothing in this crate talks to the network. It builds the requests that a client sends,
//! and it turns what comes back into typed values or classified errors.

pub mod boilerplate;
pub mod client;
pub mod codec;
pub mod dict;
pub mod errors;
pub mod json;
pub mod media;
pub mod presence;
pub mod profile;
pub mod request;
pub mod room;
pub mod sync;
pub mod text;
pub mod types;

pub use client::MatrixClient;
