//! Authentication and session core for a small review-collection web service.
//!
//! The library covers the security-relevant subsystem only: initiating an
//! OAuth2 authorization-code login, verifying the callback, upserting the
//! user row, persisting the session row, and resolving the session cookie to
//! a user on every later request.  HTML rendering, CRUD handlers and process
//! bootstrap are external collaborators and live outside this crate.

pub mod flow;
pub mod laws;
pub mod middleware;
pub mod records;
pub mod store;
pub mod token;
pub mod urls;
