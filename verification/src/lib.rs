//! Authentication core of a user service: password hashing, signed and
//! expiring bearer tokens, extraction of a presented token from a request's
//! headers, and the login and authorization decisions built on them.

pub mod auth;
pub mod config;
pub mod routes;
