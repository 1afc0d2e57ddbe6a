//! Text-to-speech client library: request and credential types, token
//! bookkeeping, and a fully buffered, seekable byte source over a decoded
//! audio payload.

pub mod auth;
pub mod client;
pub mod jwt;
pub mod services;
pub mod types;
