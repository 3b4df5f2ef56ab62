//! Donation platforms and the endpoint that lists them.

use crate::client::{parts_match, AuthState, Modrinth, RequestParts};
use crate::helpers::str_eq;
use crate::ModrinthError;
use vstd::prelude::*;
use vstd::string::StringExecFns;

verus! {

/// A donation platform that a project can link to.
#[derive(Clone, Debug, PartialEq, Eq)]
pub enum DonationPlatform {
    BuyMeACoffee,
    GitHub,
    Kofi,
    Patreon,
    PayPal,
    Other,
    /// A platform this library does not know, kept as the reported short
    /// tag and display name.
    Undocumented { short: String, name: String },
}

/// The short wire tag of a donation platform; an unknown tag is carried
/// as itself.
pub open spec fn platform_short(d: DonationPlatform) -> Seq<char> {
    match d {
        DonationPlatform::BuyMeACoffee => "bmac"@,
        DonationPlatform::GitHub => "github"@,
        DonationPlatform::Kofi => "ko-fi"@,
        DonationPlatform::Patreon => "patreon"@,
        DonationPlatform::PayPal => "paypal"@,
        DonationPlatform::Other => "other"@,
        DonationPlatform::Undocumented { short, name } => short@,
    }
}

/// The display name of a donation platform.
pub open spec fn platform_name(d: DonationPlatform) -> Seq<char> {
    match d {
        DonationPlatform::BuyMeACoffee => "Buy Me a Coffee"@,
        DonationPlatform::GitHub => "GitHub Sponsors"@,
        DonationPlatform::Kofi => "Ko-fi"@,
        DonationPlatform::Patreon => "Patreon"@,
        DonationPlatform::PayPal => "PayPal"@,
        DonationPlatform::Other => "Other"@,
        DonationPlatform::Undocumented { short, name } => name@,
    }
}

/// Whether `s` is one of the known donation platform short tags.
pub open spec fn is_known_platform_short(s: Seq<char>) -> bool {
    ||| s == "bmac"@
    ||| s == "github"@
    ||| s == "ko-fi"@
    ||| s == "patreon"@
    ||| s == "paypal"@
    ||| s == "other"@
}

/// Whether a donation platform is the catch-all variant.
pub open spec fn is_undocumented_platform(d: DonationPlatform) -> bool {
    d is Undocumented
}

impl DonationPlatform {
    /// Parse one reported platform entry by its short tag.  Any tag
    /// outside the known set falls into
    /// [`DonationPlatform::Undocumented`] carrying the original short tag
    /// and display name unchanged, so parsing never fails.
    pub fn from_entry(short: &str, name: &str) -> (r: DonationPlatform)
        ensures
            platform_short(r) == short@,
            is_undocumented_platform(r) <==> !is_known_platform_short(short@),
            is_undocumented_platform(r) ==> platform_name(r) == name@,
    {
        if str_eq(short, "bmac") {
            DonationPlatform::BuyMeACoffee
        } else if str_eq(short, "github") {
            DonationPlatform::GitHub
        } else if str_eq(short, "ko-fi") {
            DonationPlatform::Kofi
        } else if str_eq(short, "patreon") {
            DonationPlatform::Patreon
        } else if str_eq(short, "paypal") {
            DonationPlatform::PayPal
        } else if str_eq(short, "other") {
            DonationPlatform::Other
        } else {
            DonationPlatform::Undocumented { short: short.to_owned(), name: name.to_owned() }
        }
    }

    /// The display name of the platform, e.g. `"Buy Me a Coffee"` for the
    /// short tag `"bmac"`.
    pub fn name(&self) -> (r: String)
        ensures
            r@ == platform_name(*self),
    {
        match self {
            DonationPlatform::BuyMeACoffee => String::from_str("Buy Me a Coffee"),
            DonationPlatform::GitHub => String::from_str("GitHub Sponsors"),
            DonationPlatform::Kofi => String::from_str("Ko-fi"),
            DonationPlatform::Patreon => String::from_str("Patreon"),
            DonationPlatform::PayPal => String::from_str("PayPal"),
            DonationPlatform::Other => String::from_str("Other"),
            DonationPlatform::Undocumented { short, name } => name.clone(),
        }
    }
}

/// One raw entry of the donation platform listing, as the API reports it.
pub struct DonationRow {
    /// The raw short tag.
    pub short: String,
    /// The display name.
    pub name: String,
}

/// Parse the raw donation platform listing, in the order the API reported
/// the entries.
pub fn donation_platforms_from_rows(rows: &Vec<DonationRow>) -> (r: Vec<DonationPlatform>)
    ensures
        r@.len() == rows@.len(),
        forall|i: int|
            0 <= i < rows@.len() ==> {
                &&& platform_short(#[trigger] r@[i]) == rows@[i].short@
                &&& (is_undocumented_platform(r@[i]) <==> !is_known_platform_short(
                    rows@[i].short@,
                ))
                &&& (is_undocumented_platform(r@[i]) ==> platform_name(r@[i]) == rows@[i].name@)
            },
{
    let mut out: Vec<DonationPlatform> = Vec::new();
    let n = rows.len();
    let mut i: usize = 0;
    while i < n
        invariant
            i <= n,
            n == rows@.len(),
            out@.len() == i,
            forall|k: int|
                0 <= k < i ==> {
                    &&& platform_short(#[trigger] out@[k]) == rows@[k].short@
                    &&& (is_undocumented_platform(out@[k]) <==> !is_known_platform_short(
                        rows@[k].short@,
                    ))
                    &&& (is_undocumented_platform(out@[k]) ==> platform_name(out@[k])
                        == rows@[k].name@)
                },
        decreases n - i,
    {
        let row = &rows[i];
        out.push(DonationPlatform::from_entry(row.short.as_str(), row.name.as_str()));
        i = i + 1;
    }
    out
}

/// Build the request for the donation platform listing endpoint.
pub fn donation_platforms_request<Auth: AuthState>(m: &Modrinth<Auth>, now: i64) -> (r: Result<
    RequestParts,
    ModrinthError,
>)
    ensures
        r is Ok <==> m.auth_ok_at(false, now as int),
        match r {
            Ok(parts) => parts_match(m, parts, "/tag/donation_platform"@) && parts.query is None,
            Err(e) => e is Unauthorized,
        },
{
    m.request_parts_at("/tag/donation_platform", None, false, now)
}

} // verus!
