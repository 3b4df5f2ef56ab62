//! Licenses supported by Modrinth and the endpoint that fetches one.

use crate::api::{finish_not_found, FetchFailure};
use crate::client::{parts_match, AuthState, Modrinth, RequestParts};
use crate::ModrinthError;
use vstd::prelude::*;
use vstd::string::StringExecFns;

verus! {

/// A license supported by Modrinth: any license listed on the
/// [SPDX License List](https://spdx.org/licenses/).
#[derive(Clone, Debug, PartialEq, Eq)]
pub struct License {
    /// The title of the license.
    pub title: String,
    /// The full text of the license.
    pub body: String,
}

/// The endpoint path that fetches the license with the given SPDX ID.
pub open spec fn license_path_spec(id: Seq<char>) -> Seq<char> {
    "/tag/license/"@ + id
}

/// Build the request that fetches the text and title of the license with
/// the given SPDX ID (e.g. `"MIT"`, `"LGPL-3.0-or-later"`).
pub fn license_request<Auth: AuthState>(m: &Modrinth<Auth>, id: &str, now: i64) -> (r: Result<
    RequestParts,
    ModrinthError,
>)
    ensures
        r is Ok <==> m.auth_ok_at(false, now as int),
        match r {
            Ok(parts) => parts_match(m, parts, license_path_spec(id@)) && parts.query is None,
            Err(e) => e is Unauthorized,
        },
{
    let path = String::from_str("/tag/license/").concat(id);
    m.request_parts_at(path.as_str(), None, false, now)
}

/// Type the outcome of the license endpoint.  The API documents exactly
/// one failure mode for it, so any failure is reinterpreted as
/// [`ModrinthError::NotFound`] for the queried SPDX ID.
pub fn license_result(id: &str, outcome: Result<License, FetchFailure>) -> (r: Result<
    License,
    ModrinthError,
>)
    ensures
        match outcome {
            Ok(v) => r matches Ok(w) && w == v,
            Err(_) => r matches Err(ModrinthError::NotFound { resource: res, id: i }) && res@
                == "license"@ && i@ == id@,
        },
{
    finish_not_found("license", id, outcome)
}

} // verus!
