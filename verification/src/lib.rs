//! Verified core of a notes API: end-to-end encryption of request and
//! response bodies, session storage after key exchange, token issue and
//! checking, the blacklist of revoked tokens, and the records the API stores.
pub mod cache_manager;
pub mod clock;
pub mod crypto_manager;
pub mod crypto_middleware;
pub mod models;
pub mod repository;
pub mod routes;
pub mod session_id;
pub mod session_manager;
pub mod text;
pub mod token_manager;
