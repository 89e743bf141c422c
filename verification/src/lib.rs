//! Verified core of a bridge that tails Cloudflare Workers logs and writes
//! them as newline-delimited JSON.

pub mod api;
pub mod clock;
pub mod config;
pub mod encoding;
pub mod env;
pub mod json;
pub mod stream;
pub mod tail;
pub mod text;
