//! Verified core of a small Axum web API: password hashing, JSON web
//! tokens, the private session cookie, the authentication gate, request
//! extraction rules, the health check and the Redis cache protocol.

pub mod auth;
pub mod cache;
pub mod config;
pub mod errors;
pub mod extractors;
pub mod handlers;
pub mod hex;
pub mod middleware;
pub mod session;
pub mod text;
