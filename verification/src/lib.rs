//! An OpenID Connect authentication gateway: a request-interception layer
//! that decides, per HTTP request, whether the caller must be authenticated,
//! and if so drives the authorization-code flow, validates tokens, and
//! maintains session state across requests.
//!
//! All network traffic, clock reads and random-token generation happen
//! outside this crate; the surrounding program hands their results in as
//! plain values, and every decision the gateway takes is verified.

pub mod errors;
pub mod text;
pub mod kv;
pub mod token;
pub mod session;
pub mod pending;
pub mod route_guard;
pub mod provider;
pub mod middleware;
pub mod callback;
pub mod todo;
