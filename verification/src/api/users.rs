//! Users on Modrinth and the endpoints that fetch them.

use crate::api::badges::{decode_spec, Badge, Badges};
use crate::api::FetchFailure;
use crate::api::{finish_not_found, finish_unauthorized};
use crate::client::{parts_match, AuthState, Authenticated, Modrinth, RequestParts};
use crate::helpers::{debug_list, debug_list_spec, str_eq};
use crate::ModrinthError;
use vstd::prelude::*;
use vstd::string::StringExecFns;

verus! {

/// Roles that a user can have on Modrinth.
///
/// - Users can create projects, join teams, access notifications, manage
///   settings, and follow projects.
/// - Admins and moderators have more advanced permissions such as
///   reviewing new projects.
#[derive(Clone, Copy, Debug, PartialEq, Eq, PartialOrd, Ord, Structural)]
pub enum UserRole {
    Developer,
    Moderator,
    Admin,
}

/// The wire tag of a user role.
pub open spec fn user_role_tag(t: UserRole) -> Seq<char> {
    match t {
        UserRole::Developer => "developer"@,
        UserRole::Moderator => "moderator"@,
        UserRole::Admin => "admin"@,
    }
}

/// Whether `s` is one of the known user role tags.
pub open spec fn is_known_user_role_tag(s: Seq<char>) -> bool {
    ||| s == "developer"@
    ||| s == "moderator"@
    ||| s == "admin"@
}

impl UserRole {
    /// Parse a wire tag; this enumeration is closed, so an unknown tag is
    /// rejected.
    pub fn from_tag(s: &str) -> (r: Option<UserRole>)
        ensures
            r is Some <==> is_known_user_role_tag(s@),
            match r {
                Some(v) => user_role_tag(v) == s@,
                None => true,
            },
    {
        if str_eq(s, "developer") {
            Some(UserRole::Developer)
        } else if str_eq(s, "moderator") {
            Some(UserRole::Moderator)
        } else if str_eq(s, "admin") {
            Some(UserRole::Admin)
        } else {
            None
        }
    }
}

/// Authentication providers that a user can use to sign up for Modrinth.
#[derive(Clone, Copy, Debug, PartialEq, Eq, Structural)]
pub enum AuthProviders {
    GitHub,
    Discord,
    Microsoft,
    GitLab,
    Google,
    Steam,
    PayPal,
}

/// The wire tag of an authentication provider.
pub open spec fn auth_provider_tag(t: AuthProviders) -> Seq<char> {
    match t {
        AuthProviders::GitHub => "github"@,
        AuthProviders::Discord => "discord"@,
        AuthProviders::Microsoft => "microsoft"@,
        AuthProviders::GitLab => "gitlab"@,
        AuthProviders::Google => "google"@,
        AuthProviders::Steam => "steam"@,
        AuthProviders::PayPal => "paypal"@,
    }
}

/// Whether `s` is one of the known authentication provider tags.
pub open spec fn is_known_auth_provider_tag(s: Seq<char>) -> bool {
    ||| s == "github"@
    ||| s == "discord"@
    ||| s == "microsoft"@
    ||| s == "gitlab"@
    ||| s == "google"@
    ||| s == "steam"@
    ||| s == "paypal"@
}

impl AuthProviders {
    /// Parse a wire tag; this enumeration is closed, so an unknown tag is
    /// rejected.
    pub fn from_tag(s: &str) -> (r: Option<AuthProviders>)
        ensures
            r is Some <==> is_known_auth_provider_tag(s@),
            match r {
                Some(v) => auth_provider_tag(v) == s@,
                None => true,
            },
    {
        if str_eq(s, "github") {
            Some(AuthProviders::GitHub)
        } else if str_eq(s, "discord") {
            Some(AuthProviders::Discord)
        } else if str_eq(s, "microsoft") {
            Some(AuthProviders::Microsoft)
        } else if str_eq(s, "gitlab") {
            Some(AuthProviders::GitLab)
        } else if str_eq(s, "google") {
            Some(AuthProviders::Google)
        } else if str_eq(s, "steam") {
            Some(AuthProviders::Steam)
        } else if str_eq(s, "paypal") {
            Some(AuthProviders::PayPal)
        } else {
            None
        }
    }
}

/// Various data relating to a user's payout status; only visible on one's
/// own account.
#[derive(Debug)]
pub struct UserPayout {
    /// The payout balance available for the user to withdraw, as the
    /// decimal text of the wire value.
    pub balance: String,
    /// The user's PayPal email address, if they have one.
    pub paypal_address: Option<String>,
    /// The user's PayPal country, if they have one.
    pub paypal_country: Option<String>,
    /// The user's Venmo handle, if they have one.
    pub venmo_handle: Option<String>,
}

/// The mathematical content of a [`UserPayout`].
pub ghost struct UserPayoutView {
    pub balance: Seq<char>,
    pub paypal_address: Option<Seq<char>>,
    pub paypal_country: Option<Seq<char>>,
    pub venmo_handle: Option<Seq<char>>,
}

impl View for UserPayout {
    type V = UserPayoutView;

    open spec fn view(&self) -> UserPayoutView {
        UserPayoutView {
            balance: self.balance@,
            paypal_address: self.paypal_address.deep_view(),
            paypal_country: self.paypal_country.deep_view(),
            venmo_handle: self.venmo_handle.deep_view(),
        }
    }
}

/// Clone an optional string; the copy views identically.
fn clone_opt_string(o: &Option<String>) -> (r: Option<String>)
    ensures
        r.deep_view() == o.deep_view(),
{
    match o {
        Some(s) => Some(s.clone()),
        None => None,
    }
}

impl Clone for UserPayout {
    /// The copy views identically to the original.
    fn clone(&self) -> (res: Self)
        ensures
            res@ == self@,
    {
        UserPayout {
            balance: self.balance.clone(),
            paypal_address: clone_opt_string(&self.paypal_address),
            paypal_country: clone_opt_string(&self.paypal_country),
            venmo_handle: clone_opt_string(&self.venmo_handle),
        }
    }
}

/// A user on Modrinth.
#[derive(Debug)]
pub struct User {
    /// The user's username.
    pub username: String,
    /// The user's display name.
    pub name: Option<String>,
    /// The user's email; only displayed when requesting your own account.
    /// Requires the `USER_READ_EMAIL` PAT scope.
    pub email: Option<String>,
    /// A description of the user.
    pub bio: Option<String>,
    /// Various data relating to the user's payout status; you can only
    /// see your own.
    pub payout_data: Option<UserPayout>,
    /// The user's ID.
    pub id: String,
    /// The user's avatar URL.
    pub avatar_url: String,
    /// The instant at which the user was created, in unix seconds.
    pub created: i64,
    /// The user's role.
    pub role: UserRole,
    /// Any badges applicable to this user.  These are currently unused
    /// and undisplayed, and as such are subject to change.
    pub badges: Badges,
    /// The authentication providers the user signed up with; only
    /// displayed when requesting your own account.
    pub auth_providers: Option<Vec<AuthProviders>>,
    /// Whether the email is verified; only displayed when requesting your
    /// own account.
    pub email_verified: Option<bool>,
    /// Whether a password is associated with the account; only displayed
    /// when requesting your own account.
    pub has_password: Option<bool>,
    /// Whether TOTP two-factor authentication is connected to the
    /// account; only displayed when requesting your own account.
    pub has_totp: Option<bool>,
}

/// The mathematical content of a [`User`].
pub ghost struct UserView {
    pub username: Seq<char>,
    pub name: Option<Seq<char>>,
    pub email: Option<Seq<char>>,
    pub bio: Option<Seq<char>>,
    pub payout_data: Option<UserPayoutView>,
    pub id: Seq<char>,
    pub avatar_url: Seq<char>,
    pub created: int,
    pub role: UserRole,
    pub badges: Seq<Badge>,
    pub auth_providers: Option<Seq<AuthProviders>>,
    pub email_verified: Option<bool>,
    pub has_password: Option<bool>,
    pub has_totp: Option<bool>,
}

impl View for User {
    type V = UserView;

    open spec fn view(&self) -> UserView {
        UserView {
            username: self.username@,
            name: self.name.deep_view(),
            email: self.email.deep_view(),
            bio: self.bio.deep_view(),
            payout_data: match self.payout_data {
                Some(p) => Some(p@),
                None => None,
            },
            id: self.id@,
            avatar_url: self.avatar_url@,
            created: self.created as int,
            role: self.role,
            badges: self.badges.0@,
            auth_providers: match self.auth_providers {
                Some(v) => Some(v@),
                None => None,
            },
            email_verified: self.email_verified,
            has_password: self.has_password,
            has_totp: self.has_totp,
        }
    }
}

impl DeepView for User {
    type V = UserView;

    open spec fn deep_view(&self) -> UserView {
        self.view()
    }
}

/// Copy a provider list element by element; providers are plain values.
fn clone_providers(v: &Vec<AuthProviders>) -> (r: Vec<AuthProviders>)
    ensures
        r@ == v@,
{
    let mut out: Vec<AuthProviders> = Vec::new();
    let n = v.len();
    let mut i: usize = 0;
    while i < n
        invariant
            i <= n,
            n == v@.len(),
            out@ == v@.take(i as int),
        decreases n - i,
    {
        out.push(v[i]);
        proof {
            assert(out@ =~= v@.take(i + 1));
        }
        i = i + 1;
    }
    proof {
        assert(v@.take(n as int) =~= v@);
    }
    out
}

impl Clone for User {
    /// The copy views identically to the original.
    fn clone(&self) -> (res: Self)
        ensures
            res@ == self@,
    {
        User {
            username: self.username.clone(),
            name: clone_opt_string(&self.name),
            email: clone_opt_string(&self.email),
            bio: clone_opt_string(&self.bio),
            payout_data: match &self.payout_data {
                Some(p) => Some(p.clone()),
                None => None,
            },
            id: self.id.clone(),
            avatar_url: self.avatar_url.clone(),
            created: self.created,
            role: self.role,
            badges: self.badges.clone(),
            auth_providers: match &self.auth_providers {
                Some(v) => Some(clone_providers(v)),
                None => None,
            },
            email_verified: self.email_verified,
            has_password: self.has_password,
            has_totp: self.has_totp,
        }
    }
}

/// One raw user record, as the API reports it.
pub struct UserRow {
    pub username: String,
    pub name: Option<String>,
    pub email: Option<String>,
    pub bio: Option<String>,
    pub payout_data: Option<UserPayout>,
    pub id: String,
    pub avatar_url: String,
    /// The creation instant, in unix seconds.
    pub created: i64,
    /// The raw role tag.
    pub role: String,
    /// The raw badge bitmask.
    pub badges: u8,
    /// The raw authentication provider tags.
    pub auth_providers: Option<Vec<String>>,
    pub email_verified: Option<bool>,
    pub has_password: Option<bool>,
    pub has_totp: Option<bool>,
}

/// Whether every enumeration tag of a raw user record is known: the role
/// tag and, when present, every provider tag.
pub open spec fn user_row_tags_known(row: UserRow) -> bool {
    &&& is_known_user_role_tag(row.role@)
    &&& (match row.auth_providers {
        Some(ps) => forall|i: int|
            0 <= i < ps.deep_view().len() ==> is_known_auth_provider_tag(#[trigger] ps.deep_view()[i]),
        None => true,
    })
}

/// Whether the typed user `u` is the faithful reading of the raw record
/// `row`: plain fields carried over, the role and provider tags parsed,
/// and the badge bitmask decoded.
pub open spec fn user_matches_row(u: UserView, row: UserRow) -> bool {
    &&& u.username == row.username@
    &&& u.name == row.name.deep_view()
    &&& u.email == row.email.deep_view()
    &&& u.bio == row.bio.deep_view()
    &&& u.payout_data == (match row.payout_data {
        Some(p) => Some(p@),
        None => None::<UserPayoutView>,
    })
    &&& u.id == row.id@
    &&& u.avatar_url == row.avatar_url@
    &&& u.created == row.created as int
    &&& user_role_tag(u.role) == row.role@
    &&& u.badges == decode_spec(row.badges)
    &&& (match (u.auth_providers, row.auth_providers) {
        (Some(ps), Some(raw)) => {
            &&& ps.len() == raw.deep_view().len()
            &&& forall|i: int|
                0 <= i < ps.len() ==> auth_provider_tag(#[trigger] ps[i]) == raw.deep_view()[i]
        },
        (None, None) => true,
        _ => false,
    })
    &&& u.email_verified == row.email_verified
    &&& u.has_password == row.has_password
    &&& u.has_totp == row.has_totp
}

/// Type one raw user record.  The role and provider enumerations are
/// closed, so an unknown tag fails with [`ModrinthError::Parse`].
pub fn user_from_row(row: UserRow) -> (r: Result<User, ModrinthError>)
    ensures
        r is Ok <==> user_row_tags_known(row),
        match r {
            Ok(u) => user_matches_row(u@, row),
            Err(e) => e is Parse,
        },
{
    let role = match UserRole::from_tag(row.role.as_str()) {
        Some(role) => role,
        None => {
            proof {
                reveal_strlit("unknown user role");
            }
            return Err(ModrinthError::Parse(String::from_str("unknown user role")));
        },
    };
    let auth_providers = match &row.auth_providers {
        Some(raw) => {
            let mut out: Vec<AuthProviders> = Vec::new();
            let n = raw.len();
            let mut i: usize = 0;
            while i < n
                invariant
                    row.auth_providers == Some(*raw),
                    i <= n,
                    n == raw@.len(),
                    out@.len() == i,
                    forall|k: int|
                        0 <= k < i ==> is_known_auth_provider_tag(#[trigger] raw.deep_view()[k]),
                    forall|k: int|
                        0 <= k < i ==> auth_provider_tag(#[trigger] out@[k]) == raw.deep_view()[k],
                decreases n - i,
            {
                match AuthProviders::from_tag(raw[i].as_str()) {
                    Some(p) => {
                        out.push(p);
                    },
                    None => {
                        proof {
                            reveal_strlit("unknown auth provider");
                            let ps = row.auth_providers->0;
                            assert(ps.deep_view()[i as int] == ps@[i as int]@);
                            assert(!is_known_auth_provider_tag(ps.deep_view()[i as int]));
                            assert(!(forall|k: int|
                                0 <= k < ps.deep_view().len() ==> is_known_auth_provider_tag(
                                    #[trigger] ps.deep_view()[k],
                                )));
                            assert(!user_row_tags_known(row));
                        }
                        return Err(
                            ModrinthError::Parse(String::from_str("unknown auth provider")),
                        );
                    },
                }
                i = i + 1;
            }
            Some(out)
        },
        None => None,
    };
    Ok(
        User {
            username: row.username,
            name: row.name,
            email: row.email,
            bio: row.bio,
            payout_data: row.payout_data,
            id: row.id,
            avatar_url: row.avatar_url,
            created: row.created,
            role,
            badges: Badges::decode(row.badges),
            auth_providers,
            email_verified: row.email_verified,
            has_password: row.has_password,
            has_totp: row.has_totp,
        },
    )
}

/// The first user in `users` whose username is `username`, if any.
pub open spec fn first_user_with(users: Seq<UserView>, username: Seq<char>) -> Option<UserView>
    decreases users.len(),
{
    if users.len() == 0 {
        None
    } else if users.first().username == username {
        Some(users.first())
    } else {
        first_user_with(users.drop_first(), username)
    }
}

/// Resolve a batch user lookup: for each requested username or ID, in
/// request order, the first returned record with that username, or `None`
/// when the identifier was not resolved.  An unresolved identifier never
/// fails the call: this is a partial-success contract.
pub fn many_users_response(requested: &Vec<String>, resolved: &Vec<User>) -> (r: Vec<
    (String, Option<User>),
>)
    ensures
        r@.len() == requested@.len(),
        forall|i: int|
            0 <= i < requested@.len() ==> {
                &&& (#[trigger] r@[i]).0@ == requested@[i]@
                &&& (match first_user_with(resolved.deep_view(), requested@[i]@) {
                    Some(uv) => r@[i].1 matches Some(u) && u@ == uv,
                    None => r@[i].1 is None,
                })
            },
{
    let ghost rv: Seq<UserView> = resolved.deep_view();
    let mut out: Vec<(String, Option<User>)> = Vec::new();
    let n = requested.len();
    let mut i: usize = 0;
    while i < n
        invariant
            i <= n,
            n == requested@.len(),
            rv == resolved.deep_view(),
            rv.len() == resolved@.len(),
            forall|j: int| 0 <= j < rv.len() ==> rv[j] == resolved@[j]@,
            out@.len() == i,
            forall|j: int|
                0 <= j < i ==> {
                    &&& (#[trigger] out@[j]).0@ == requested@[j]@
                    &&& (match first_user_with(rv, requested@[j]@) {
                        Some(uv) => out@[j].1 matches Some(u) && u@ == uv,
                        None => out@[j].1 is None,
                    })
                },
        decreases n - i,
    {
        let name = &requested[i];
        let m = resolved.len();
        let mut k: usize = 0;
        let mut found: Option<User> = None;
        proof {
            assert(rv.skip(0) =~= rv);
        }
        while k < m && found.is_none()
            invariant
                k <= m,
                m == resolved@.len(),
                rv == resolved.deep_view(),
                rv.len() == resolved@.len(),
                forall|j: int| 0 <= j < rv.len() ==> rv[j] == resolved@[j]@,
                match found {
                    None => first_user_with(rv, name@) == first_user_with(
                        rv.skip(k as int),
                        name@,
                    ),
                    Some(u) => first_user_with(rv, name@) == Some(u@),
                },
            decreases m - k,
        {
            proof {
                assert(rv.skip(k as int).first() == rv[k as int]);
                assert(rv.skip(k as int).drop_first() =~= rv.skip(k + 1));
            }
            if str_eq(resolved[k].username.as_str(), name.as_str()) {
                found = Some(resolved[k].clone());
            }
            k = k + 1;
        }
        proof {
            if k == m && found is None {
                assert(rv.skip(m as int) =~= Seq::<UserView>::empty());
            }
        }
        out.push((name.clone(), found));
        i = i + 1;
    }
    out
}

/// The endpoint path that fetches the user with the given username or ID.
pub open spec fn user_path_spec(user: Seq<char>) -> Seq<char> {
    "/user/"@ + user
}

/// Build the request that fetches a user by username or ID.
pub fn user_request<Auth: AuthState>(m: &Modrinth<Auth>, user: &str, now: i64) -> (r: Result<
    RequestParts,
    ModrinthError,
>)
    ensures
        r is Ok <==> m.auth_ok_at(false, now as int),
        match r {
            Ok(parts) => parts_match(m, parts, user_path_spec(user@)) && parts.query is None,
            Err(e) => e is Unauthorized,
        },
{
    let path = String::from_str("/user/").concat(user);
    m.request_parts_at(path.as_str(), None, false, now)
}

/// Type the outcome of the single-user endpoint.  The API documents
/// exactly one failure mode for it, so any failure is reinterpreted as
/// [`ModrinthError::NotFound`] for the queried user.
pub fn user_result(user: &str, outcome: Result<User, FetchFailure>) -> (r: Result<
    User,
    ModrinthError,
>)
    ensures
        match outcome {
            Ok(v) => r matches Ok(w) && w == v,
            Err(_) => r matches Err(ModrinthError::NotFound { resource: res, id: i }) && res@
                == "user"@ && i@ == user@,
        },
{
    finish_not_found("user", user, outcome)
}

/// Build the request that fetches the currently authenticated user; this
/// endpoint is only callable on an authenticated client, and fails with
/// [`ModrinthError::Unauthorized`], before anything is sent, when the held
/// token has expired.
pub fn current_user_request<Auth: Authenticated>(m: &Modrinth<Auth>, now: i64) -> (r: Result<
    RequestParts,
    ModrinthError,
>)
    ensures
        r is Ok <==> m.auth_ok_at(true, now as int),
        match r {
            Ok(parts) => parts_match(m, parts, "/user"@) && parts.query is None,
            Err(e) => e is Unauthorized,
        },
{
    m.request_parts_at("/user", None, true, now)
}

/// Type the outcome of the current-user endpoint: any failure is
/// reinterpreted as [`ModrinthError::Unauthorized`].
pub fn current_user_result(outcome: Result<User, FetchFailure>) -> (r: Result<User, ModrinthError>)
    ensures
        match outcome {
            Ok(v) => r matches Ok(w) && w == v,
            Err(_) => r matches Err(ModrinthError::Unauthorized),
        },
{
    finish_unauthorized(outcome)
}

/// Build the batch request that fetches multiple users by username or ID:
/// one request, with the identifier list carried in the `ids` query
/// parameter in the exact bracketed textual form the API expects.
pub fn users_request<Auth: AuthState>(m: &Modrinth<Auth>, users: &Vec<String>, now: i64) -> (r:
    Result<RequestParts, ModrinthError>)
    ensures
        r is Ok <==> m.auth_ok_at(false, now as int),
        match r {
            Ok(parts) => {
                &&& parts_match(m, parts, "/users"@)
                &&& parts.query matches Some(q) && q.0@ == "ids"@ && q.1@ == debug_list_spec(
                    users.deep_view(),
                )
            },
            Err(e) => e is Unauthorized,
        },
{
    let value = debug_list(users);
    m.request_parts_at("/users", Some((String::from_str("ids"), value)), false, now)
}

} // verus!
