//! Miscellaneous endpoints: instance statistics and the Forge update
//! manifest.

use crate::api::{finish_not_found, FetchFailure};
use crate::client::{parts_match, AuthState, Modrinth, RequestParts};
use crate::ModrinthError;
use vstd::prelude::*;
use vstd::string::StringExecFns;

verus! {

/// Various statistics about this Modrinth instance.
#[derive(Clone, Copy, Debug, PartialEq, Eq, Structural)]
pub struct Statistics {
    /// Number of projects on Modrinth.
    pub projects: usize,
    /// Number of versions on Modrinth.
    pub versions: usize,
    /// Number of version files on Modrinth.
    pub files: usize,
    /// Number of authors (users with projects) on Modrinth.
    pub authors: usize,
}

/// The endpoint descriptor for the statistics endpoint.
pub struct GetStatistics;

impl GetStatistics {
    /// The endpoint path.
    pub fn path(&self) -> (r: &'static str)
        ensures
            r@ == "/statistics"@,
    {
        "/statistics"
    }
}

/// Build the request that fetches the number of projects, versions,
/// version files, and authors on this Modrinth instance.
pub fn statistics_request<Auth: AuthState>(m: &Modrinth<Auth>, now: i64) -> (r: Result<
    RequestParts,
    ModrinthError,
>)
    ensures
        r is Ok <==> m.auth_ok_at(false, now as int),
        match r {
            Ok(parts) => parts_match(m, parts, "/statistics"@) && parts.query is None,
            Err(e) => e is Unauthorized,
        },
{
    m.request_parts_at(GetStatistics.path(), None, false, now)
}

/// Mod version information that can be consumed by Forge's update checker.
#[derive(Clone, Debug, PartialEq, Eq)]
pub struct ForgeUpdates {
    /// A link to the mod page.
    pub homepage: String,
    /// The recommended and latest versions for each Minecraft release,
    /// keyed by release name.
    pub promos: Vec<(String, Promo)>,
}

/// The recommended and latest versions for a Minecraft release.
#[derive(Clone, Debug, PartialEq, Eq)]
pub struct Promo {
    /// The mod version that is recommended for the release; excludes
    /// versions with the alpha and beta version types.
    pub recommended: String,
    /// The latest mod version for the release; shows versions with the
    /// alpha and beta version types.
    pub latest: String,
}

/// The endpoint path that fetches the Forge update manifest of a project.
pub open spec fn forge_path_spec(project: Seq<char>) -> Seq<char> {
    "/updates/"@ + project + "/forge_updates.json"@
}

/// Build the request that fetches a project's version information in the
/// format consumed by Forge's update checker; `project` is the ID or slug
/// of the project.
pub fn forge_request<Auth: AuthState>(m: &Modrinth<Auth>, project: &str, now: i64) -> (r: Result<
    RequestParts,
    ModrinthError,
>)
    ensures
        r is Ok <==> m.auth_ok_at(false, now as int),
        match r {
            Ok(parts) => parts_match(m, parts, forge_path_spec(project@)) && parts.query is None,
            Err(e) => e is Unauthorized,
        },
{
    let path = String::from_str("/updates/").concat(project).concat("/forge_updates.json");
    proof {
        assert(path@ =~= forge_path_spec(project@));
    }
    m.request_parts_at(path.as_str(), None, false, now)
}

/// Type the outcome of the Forge update manifest endpoint.  The API
/// documents exactly one failure mode for it, so any failure is
/// reinterpreted as [`ModrinthError::NotFound`] for the queried project.
pub fn forge_result(project: &str, outcome: Result<ForgeUpdates, FetchFailure>) -> (r: Result<
    ForgeUpdates,
    ModrinthError,
>)
    ensures
        match outcome {
            Ok(v) => r matches Ok(w) && w == v,
            Err(_) => r matches Err(ModrinthError::NotFound { resource: res, id: i }) && res@
                == "project"@ && i@ == project@,
        },
{
    finish_not_found("project", project, outcome)
}

} // verus!
