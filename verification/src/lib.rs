//! Core of a client for a cursor-paginated HTTP API protected by OAuth2
//! client-credentials: credential/token management, resilient request
//! execution (rate-limit gate, error classification, retry, reauth) and
//! cursor pagination, all as verified decision logic over plain values.
//! Network I/O, task sleeping and typed deserialization live outside the
//! library and drive these functions.

use vstd::prelude::*;

pub mod client;
pub mod credentials;
pub mod error;
pub mod json;
pub mod model;
pub mod paginated;
pub mod text;
pub mod token;

verus! {

/// Base URL that relative endpoint paths are appended to.
pub const HELIX_BASE_URL: &'static str = "https://api.twitch.tv/helix";

} // verus!
