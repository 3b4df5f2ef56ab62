//! Endpoint definitions: request descriptors, response shapes, and the
//! typed mapping of each endpoint's outcome into the error taxonomy.

use crate::ModrinthError;
use vstd::prelude::*;

pub mod badges;
pub mod donation;
pub mod license;
pub mod loader;
pub mod misc;
pub mod projects;
pub mod tags;
pub mod users;

verus! {

/// How a sent request can fail before a typed value is produced: the
/// transport reports these back so the endpoint's mapping can type them.
#[derive(Debug, Clone)]
pub enum FetchFailure {
    /// A network failure or a non-success status, described opaquely.
    Transport(String),
    /// The response body did not match the declared shape.
    Parse(String),
}

/// Type the outcome of an endpoint without a custom error mapping:
/// transport failures pass through unchanged as [`ModrinthError::Client`]
/// and shape mismatches surface as [`ModrinthError::Parse`].
pub fn finish<T>(outcome: Result<T, FetchFailure>) -> (r: Result<T, ModrinthError>)
    ensures
        match outcome {
            Ok(v) => r matches Ok(w) && w == v,
            Err(FetchFailure::Transport(m)) => r matches Err(ModrinthError::Client(n)) && n == m,
            Err(FetchFailure::Parse(m)) => r matches Err(ModrinthError::Parse(n)) && n == m,
        },
{
    match outcome {
        Ok(v) => Ok(v),
        Err(FetchFailure::Transport(m)) => Err(ModrinthError::Client(m)),
        Err(FetchFailure::Parse(m)) => Err(ModrinthError::Parse(m)),
    }
}

/// Type the outcome of an endpoint whose only documented failure mode is
/// "does not exist": any failure is reinterpreted as
/// [`ModrinthError::NotFound`] for the queried resource.
pub fn finish_not_found<T>(resource: &'static str, id: &str, outcome: Result<T, FetchFailure>) -> (r:
    Result<T, ModrinthError>)
    ensures
        match outcome {
            Ok(v) => r matches Ok(w) && w == v,
            Err(_) => r matches Err(ModrinthError::NotFound { resource: res, id: i }) && res@
                == resource@ && i@ == id@,
        },
{
    match outcome {
        Ok(v) => Ok(v),
        Err(_) => Err(ModrinthError::NotFound { resource, id: id.to_owned() }),
    }
}

/// Type the outcome of an endpoint that requires authentication: any
/// failure is reinterpreted as [`ModrinthError::Unauthorized`].
pub fn finish_unauthorized<T>(outcome: Result<T, FetchFailure>) -> (r: Result<T, ModrinthError>)
    ensures
        match outcome {
            Ok(v) => r matches Ok(w) && w == v,
            Err(_) => r matches Err(ModrinthError::Unauthorized),
        },
{
    match outcome {
        Ok(v) => Ok(v),
        Err(_) => Err(ModrinthError::Unauthorized),
    }
}

} // verus!
