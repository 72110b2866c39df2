//! Request-handling and error-normalization core of a small user CRUD service.
//!
//! The library holds the decision logic of the service: input validation,
//! classification of persistence failures, the uniform response envelope, and
//! the per-operation handlers that tie them together. Everything here is
//! verified; the surrounding HTTP server and database driver live outside and
//! hand this crate plain values.

pub mod handlers;
pub mod json;
pub mod models;
pub mod response;
pub mod service;
pub mod store;
pub mod validate;
