//! Helpers for HTTP components: CORS decisions, cookies, request inspection
//! and common responses, with their behaviour stated as contracts.
//!
//! The library works on plain descriptions of requests and responses, so
//! that what it decides can be stated and proved without regard to the
//! framework that carries them:
//!
//! - [`cors`] decides whether a policy admits the origin and the method of a
//!   request, answers preflights, and assembles the response headers.
//! - [`cookies`] writes cookies as `Set-Cookie` headers.
//! - [`request`] and [`response`] describe requests and responses.
//! - [`headers`] looks headers up by name.
//! - [`text`] holds the models of strings that the contracts speak of.

pub mod cookies;
pub mod cors;
pub mod headers;
pub mod request;
pub mod response;
pub mod text;
mod wire;
