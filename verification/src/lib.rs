//! A typed client library for the Modrinth REST API.
//!
//! The crate tracks at the type level whether a client holds credentials
//! (see [`Modrinth`]), renders compliant `User-Agent` strings, builds the
//! request descriptors for every supported endpoint, and reshapes raw
//! endpoint responses into keyed, strongly typed values.  The network
//! transport itself lives outside this crate: callers send the prepared
//! [`client::RequestParts`] and hand the outcome back to the typed
//! response functions.

use vstd::prelude::*;

pub mod api;
pub mod client;
mod helpers;

pub use client::{
    build_uri, AuthState, Authenticated, Modrinth, Pat, RequestParts, Unauthenticated, UserAgent,
    UserAgentBuilder,
};

verus! {

/// An error that can occur when using the Modrinth API.
#[derive(Debug)]
pub enum ModrinthError {
    /// The underlying HTTP transport could not be constructed.
    HttpBuild(String),
    /// Resource not found.
    NotFound { resource: &'static str, id: String },
    /// Client is unauthorized.
    Unauthorized,
    /// Invalid expiration date, as day, month and year.
    Expiration(u8, u8, i32),
    /// Transport-level failure, passed through unchanged.
    Client(String),
    /// The response body did not match the declared shape.
    Parse(String),
}

impl ModrinthError {
    /// A short human-readable description of the error.
    pub fn message(&self) -> (r: String)
        ensures
            r@.len() > 0,
    {
        proof {
            reveal_strlit("resource not found");
            reveal_strlit("unauthorized");
            reveal_strlit("invalid expiration date");
            reveal_strlit("failed to build HTTP client");
            reveal_strlit("client error");
            reveal_strlit("parse error");
        }
        match self {
            ModrinthError::HttpBuild(_) => String::from_str("failed to build HTTP client"),
            ModrinthError::NotFound { .. } => String::from_str("resource not found"),
            ModrinthError::Unauthorized => String::from_str("unauthorized"),
            ModrinthError::Expiration(_, _, _) => String::from_str("invalid expiration date"),
            ModrinthError::Client(_) => String::from_str("client error"),
            ModrinthError::Parse(_) => String::from_str("parse error"),
        }
    }
}

} // verus!
