//! The Modrinth client: authentication typestate, user agent, and the
//! generic request pipeline.

use crate::ModrinthError;
use vstd::prelude::*;
use vstd::string::StringExecFns;

mod auth;
mod calendar;
mod user_agent;

pub use auth::{token_valid_at, AuthState, Authenticated, Pat, Unauthenticated};
pub use calendar::{days_in_month, end_of_day_unix, expiry_timestamp, is_leap_year, valid_date};
pub use user_agent::{render_spec, UserAgent, UserAgentBuilder};

verus! {

/// The full URI of an endpoint: one of the two fixed hosts, the API version
/// prefix, then the endpoint path.
pub open spec fn uri_spec(staging: bool, endpoint: Seq<char>) -> Seq<char> {
    if staging {
        "https://staging-api.modrinth.com/v2"@ + endpoint
    } else {
        "https://api.modrinth.com/v2"@ + endpoint
    }
}

/// The rendered form of the user agent used when the caller supplies none,
/// identifying this library.
pub open spec fn default_user_agent_spec() -> Seq<char> {
    render_spec("amerinth"@, Some("0.1.0"@), Some("getamethyst"@), Some("playamethyst.com"@))
}

/// Build the full URI for an endpoint path against the production or
/// staging host.
pub fn build_uri(staging: bool, endpoint: &str) -> (r: String)
    ensures
        r@ == uri_spec(staging, endpoint@),
{
    if staging {
        String::from_str("https://staging-api.modrinth.com/v2").concat(endpoint)
    } else {
        String::from_str("https://api.modrinth.com/v2").concat(endpoint)
    }
}

/// Everything the transport needs to issue one GET request: the full URI,
/// an optional query parameter, and the headers to attach.
pub struct RequestParts {
    /// The full request URI.
    pub url: String,
    /// An optional query parameter, as a name and a raw (unencoded) value.
    pub query: Option<(String, String)>,
    /// The `User-Agent` header value.
    pub user_agent: String,
    /// The `Authorization` header value, when the client's state attaches one.
    pub authorization: Option<String>,
}

/// Whether `parts` is exactly the request the client sends for an endpoint
/// at `path`: the URI against the client's host, the client's user agent,
/// and an `Authorization` header exactly when the client holds a token.
pub open spec fn parts_match<Auth: AuthState>(
    m: &Modrinth<Auth>,
    parts: RequestParts,
    path: Seq<char>,
) -> bool {
    &&& parts.url@ == uri_spec(m.spec_staging(), path)
    &&& parts.user_agent@ == m.spec_user_agent()
    &&& (match m.spec_token() {
        None => parts.authorization is None,
        Some(t) => parts.authorization is Some && parts.authorization->0@ == t,
    })
}

/// A client for the Modrinth API, parameterized by its authentication
/// state: endpoints that need credentials are only callable when `Auth`
/// is [`Authenticated`].
pub struct Modrinth<Auth: AuthState> {
    auth: Auth,
    user_agent: String,
    staging: bool,
}

impl<Auth: AuthState> Modrinth<Auth> {
    /// The rendered user agent sent with every request.
    pub closed spec fn spec_user_agent(&self) -> Seq<char> {
        self.user_agent@
    }

    /// Whether the client talks to the staging host.
    pub closed spec fn spec_staging(&self) -> bool {
        self.staging
    }

    /// The held token, if any.
    pub closed spec fn spec_token(&self) -> Option<Seq<char>> {
        self.auth.spec_token()
    }

    /// The token's expiry instant in unix seconds, if the token expires.
    pub closed spec fn spec_expires_at(&self) -> Option<int> {
        self.auth.spec_expires_at()
    }

    /// Whether, at time `now`, building a request raises no authentication
    /// error: an unauthenticated client may call public endpoints only, and
    /// an authenticated client's token must not have expired.
    pub open spec fn auth_ok_at(&self, requires_auth: bool, now: int) -> bool {
        match self.spec_token() {
            None => !requires_auth,
            Some(_) => token_valid_at(self.spec_expires_at(), now),
        }
    }

    /// Build the parts of a GET request for `path` at time `now` (unix
    /// seconds).  Fails with [`ModrinthError::Unauthorized`], before
    /// anything is sent, when the endpoint requires authentication and the
    /// client has none, or when the client holds a token past its expiry.
    pub fn request_parts_at(
        &self,
        path: &str,
        query: Option<(String, String)>,
        requires_auth: bool,
        now: i64,
    ) -> (r: Result<RequestParts, ModrinthError>)
        ensures
            r is Ok <==> self.auth_ok_at(requires_auth, now as int),
            match r {
                Ok(parts) => parts_match(self, parts, path@) && parts.query == query,
                Err(e) => e is Unauthorized,
            },
    {
        let authed = self.auth.is_authenticated();
        let authorization = self.auth.authorization(now);
        if authed && authorization.is_none() {
            // the held token has expired: never downgrade to an
            // unauthenticated request
            return Err(ModrinthError::Unauthorized);
        }
        if requires_auth && !authed {
            return Err(ModrinthError::Unauthorized);
        }
        Ok(
            RequestParts {
                url: build_uri(self.staging, path),
                query,
                user_agent: self.user_agent.clone(),
                authorization,
            },
        )
    }
}

fn make_user_agent(user_agent: Option<UserAgent>) -> (r: String)
    ensures
        r@ == (match user_agent {
            Some(ua) => ua.spec_render(),
            None => default_user_agent_spec(),
        }),
{
    match user_agent {
        Some(ua) => ua.render(),
        None => UserAgent::builder("amerinth")
            .version("0.1.0")
            .author("getamethyst")
            .contact("playamethyst.com")
            .build()
            .render(),
    }
}

impl Modrinth<Unauthenticated> {
    /// Create a new unauthenticated client that can communicate with the
    /// Modrinth API.
    ///
    /// ### User Agent
    /// The user agent allows the Modrinth API to uniquely identify your
    /// application, and let the Modrinth team contact you if necessary.
    /// While it is not required in the context of this library, it is
    /// highly recommended to provide a user agent.  If one is not provided,
    /// a default user agent identifying `amerinth` will be used.
    pub fn new(user_agent: Option<UserAgent>) -> (r: Modrinth<Unauthenticated>)
        ensures
            !r.spec_staging(),
            r.spec_token() is None,
            r.spec_user_agent() == (match user_agent {
                Some(ua) => ua.spec_render(),
                None => default_user_agent_spec(),
            }),
    {
        Modrinth { auth: Unauthenticated, user_agent: make_user_agent(user_agent), staging: false }
    }

    /// Create a new unauthenticated client that talks to the staging host.
    ///
    /// See [`Modrinth::new`] for more information about the client.
    pub fn staging(user_agent: Option<UserAgent>) -> (r: Modrinth<Unauthenticated>)
        ensures
            r.spec_staging(),
            r.spec_token() is None,
            r.spec_user_agent() == (match user_agent {
                Some(ua) => ua.spec_render(),
                None => default_user_agent_spec(),
            }),
    {
        Modrinth { auth: Unauthenticated, user_agent: make_user_agent(user_agent), staging: true }
    }

    /// Authenticate the client with a
    /// [Personal Access Token](https://modrinth.com/settings/pats) (PAT)
    /// that never expires by policy.
    pub fn pat(self, token: String) -> (r: Modrinth<Pat>)
        ensures
            r.spec_staging() == self.spec_staging(),
            r.spec_user_agent() == self.spec_user_agent(),
            r.spec_token() == Some(token@),
            r.spec_expires_at() is None,
    {
        Modrinth {
            auth: Pat::make(token, None),
            user_agent: self.user_agent,
            staging: self.staging,
        }
    }

    /// Authenticate the client with a
    /// [Personal Access Token](https://modrinth.com/settings/pats) (PAT)
    /// that expires at the end (23:59:59 UTC) of the given day.
    ///
    /// ### Errors
    ///
    /// Fails with [`ModrinthError::Expiration`], carrying the offending
    /// triple, when `day-month-year` is not a real calendar date; the
    /// client is consumed and no authenticated client is produced.
    pub fn pat_expires(self, token: String, day: u8, month: u8, year: i32) -> (r: Result<
        Modrinth<Pat>,
        ModrinthError,
    >)
        ensures
            r is Ok <==> valid_date(day as int, month as int, year as int),
            match r {
                Ok(m) => {
                    &&& m.spec_staging() == self.spec_staging()
                    &&& m.spec_user_agent() == self.spec_user_agent()
                    &&& m.spec_token() == Some(token@)
                    &&& m.spec_expires_at() == Some(
                        end_of_day_unix(day as int, month as int, year as int),
                    )
                },
                Err(e) => e == ModrinthError::Expiration(day, month, year),
            },
    {
        match calendar::expiry_timestamp(day, month, year) {
            Some(expires_at) => Ok(
                Modrinth {
                    auth: Pat::make(token, Some(expires_at)),
                    user_agent: self.user_agent,
                    staging: self.staging,
                },
            ),
            None => Err(ModrinthError::Expiration(day, month, year)),
        }
    }
}

/// A token set to expire at the end of `day-month-year` may authorize a
/// request exactly at the instants strictly before that date's
/// `23:59:59 UTC` timestamp, and at no instant at or after it.
pub proof fn lemma_expiring_token_validity(day: int, month: int, year: int, now: int)
    requires
        valid_date(day, month, year),
    ensures
        token_valid_at(Some(end_of_day_unix(day, month, year)), now) <==> now < end_of_day_unix(
            day,
            month,
            year,
        ),
{
}

/// A client that holds no token is never authorized for an endpoint that
/// requires authentication, at any time: its request fails before anything
/// is sent.
pub proof fn lemma_unauthenticated_never_authorized<Auth: AuthState>(m: &Modrinth<Auth>, now: int)
    requires
        m.spec_token() is None,
    ensures
        !m.auth_ok_at(true, now),
{
}

impl<Auth: Authenticated> Modrinth<Auth> {
    /// Whether the held credential may authorize a request at time `now`
    /// (unix seconds): either it never expires, or `now` is strictly
    /// before its expiry instant.
    pub fn valid_at(&self, now: i64) -> (r: bool)
        ensures
            r == token_valid_at(self.spec_expires_at(), now as int),
    {
        self.auth.valid_at(now)
    }

    /// Whether the held credential may authorize a request at the current
    /// time.  A token without an expiry date is valid indefinitely.
    pub fn is_valid(&self) -> (r: bool)
        ensures
            self.spec_expires_at() is None ==> r,
    {
        self.auth.is_valid()
    }

    /// Log out of the Modrinth API, discarding the credentials and
    /// returning to an unauthenticated client.
    pub fn logout(self) -> (r: Modrinth<Unauthenticated>)
        ensures
            r.spec_staging() == self.spec_staging(),
            r.spec_user_agent() == self.spec_user_agent(),
            r.spec_token() is None,
    {
        Modrinth { auth: Unauthenticated, user_agent: self.user_agent, staging: self.staging }
    }
}

} // verus!
