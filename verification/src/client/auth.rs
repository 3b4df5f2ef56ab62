//! Authentication states for the Modrinth client.

use vstd::prelude::*;

verus! {

/// Whether a token with the given expiry (unix seconds) may still authorize
/// a request at time `now`: either it never expires, or `now` is strictly
/// before the expiry instant.
pub open spec fn token_valid_at(expires_at: Option<int>, now: int) -> bool {
    match expires_at {
        None => true,
        Some(e) => now < e,
    }
}

/// The authentication state of the client.
pub trait AuthState: Sized {
    /// The held token, if any.
    spec fn spec_token(&self) -> Option<Seq<char>>;

    /// The token's expiry instant in unix seconds, if the token expires.
    spec fn spec_expires_at(&self) -> Option<int>;

    /// Whether this state carries a token.
    fn is_authenticated(&self) -> (b: bool)
        ensures
            b == (self.spec_token() is Some),
    ;

    /// The `Authorization` header value to attach at time `now`, or `None`
    /// when this state may not authorize a request at `now`.
    fn authorization(&self, now: i64) -> (r: Option<String>)
        ensures
            r is Some <==> (self.spec_token() is Some && token_valid_at(
                self.spec_expires_at(),
                now as int,
            )),
            r is Some ==> r->0@ == self.spec_token()->0,
    ;
}

/// The client is unauthenticated.
pub struct Unauthenticated;

impl AuthState for Unauthenticated {
    open spec fn spec_token(&self) -> Option<Seq<char>> {
        None
    }

    open spec fn spec_expires_at(&self) -> Option<int> {
        None
    }

    fn is_authenticated(&self) -> bool {
        false
    }

    fn authorization(&self, now: i64) -> Option<String> {
        None
    }
}

/// The client is [`Authenticated`] using a
/// [Personal Access Token](https://modrinth.com/settings/pats).
pub struct Pat {
    token: String,
    expires_at: Option<i64>,
}

impl Pat {
    pub(crate) fn make(token: String, expires_at: Option<i64>) -> (r: Pat)
        ensures
            r.spec_token() == Some(token@),
            r.spec_expires_at() == (match expires_at {
                Some(e) => Some(e as int),
                None => None::<int>,
            }),
    {
        Pat { token, expires_at }
    }
}

impl AuthState for Pat {
    closed spec fn spec_token(&self) -> Option<Seq<char>> {
        Some(self.token@)
    }

    closed spec fn spec_expires_at(&self) -> Option<int> {
        match self.expires_at {
            Some(e) => Some(e as int),
            None => None,
        }
    }

    fn is_authenticated(&self) -> bool {
        true
    }

    fn authorization(&self, now: i64) -> Option<String> {
        if self.valid_at(now) {
            Some(self.token.clone())
        } else {
            None
        }
    }
}

/// The client is authenticated; only states that hold a token implement this.
pub trait Authenticated: AuthState {
    /// The raw `Authorization` header value: the token itself, with no
    /// `Bearer ` prefix, per the Modrinth API convention.
    fn header(&self) -> (r: String)
        ensures
            Some(r@) == self.spec_token(),
    ;

    /// Whether the credential may authorize a request at time `now`
    /// (unix seconds).
    fn valid_at(&self, now: i64) -> (r: bool)
        ensures
            r == token_valid_at(self.spec_expires_at(), now as int),
    ;

    /// Whether the credential may authorize a request at the current time.
    /// A token without an expiry date is valid indefinitely.
    fn is_valid(&self) -> (r: bool)
        ensures
            self.spec_expires_at() is None ==> r,
    ;
}

impl Authenticated for Pat {
    fn header(&self) -> String {
        self.token.clone()
    }

    fn valid_at(&self, now: i64) -> bool {
        match &self.expires_at {
            Some(e) => now < *e,
            None => true,
        }
    }

    fn is_valid(&self) -> bool {
        self.valid_at(now_unix())
    }
}

/// Relies on std's `SystemTime::now` and `duration_since` for the current
/// unix time; nothing is assumed about the returned value.  A clock set
/// before the epoch comes back as the negated reverse distance, so no
/// clock setting panics.
#[verifier::external_body]
fn now_unix() -> i64 {
    match std::time::SystemTime::now().duration_since(std::time::UNIX_EPOCH) {
        Ok(since) => since.as_secs() as i64,
        Err(before) => -(before.duration().as_secs() as i64),
    }
}

} // verus!
