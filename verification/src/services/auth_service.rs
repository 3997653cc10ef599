//! The login service's decisions: whether the stored list of companies may
//! still be used, and the addresses and error messages of the company
//! list, the login and the company registration.

use vstd::prelude::*;
use crate::models::company::Company;
use crate::utils::clock::{hours_between, is_utc_millis, parse_rfc3339_millis, rfc3339_millis, trunc_hours};
use crate::utils::constants::BACKEND_URL;
use crate::utils::text::{decimal, push_decimal};

verus! {

/// Storage key of the list of companies.
pub const COMPANIES_CACHE_KEY: &'static str = "routeOptimizer_companies";

/// Hours during which a stored list of companies is used.
pub const COMPANIES_CACHE_DURATION_HOURS: i64 = 24;

/// A stored list of companies and when it was stored (RFC 3339).
pub struct CompaniesCache {
    pub companies: Vec<Company>,
    pub timestamp: String,
}

/// The stored list may be used at `now`: its time `stored_at` reads as
/// RFC 3339 and is less than 24 whole hours before `now`.
pub open spec fn spec_cached_companies_usable(stored_at: Seq<char>, now: int) -> bool {
    match rfc3339_millis(stored_at) {
        Some(t) => trunc_hours(now - t) < COMPANIES_CACHE_DURATION_HOURS,
        None => false,
    }
}

/// Whether a list of companies stored at `stored_at` may be used at `now`.
pub fn cached_companies_usable(stored_at: &str, now: i64) -> (r: bool)
    requires
        is_utc_millis(now as int),
    ensures
        r == spec_cached_companies_usable(stored_at@, now as int),
{
    match parse_rfc3339_millis(stored_at) {
        Some(t) => hours_between(now, t) < COMPANIES_CACHE_DURATION_HOURS,
        None => false,
    }
}

/// The companies of the stored list, when there is one that may still be
/// used at `now`; nothing otherwise, and the list is fetched again.
pub fn usable_cached_companies(cache: Option<CompaniesCache>, now: i64) -> (r: Option<Vec<Company>>)
    requires
        is_utc_millis(now as int),
    ensures
        match cache {
            Some(c) => if spec_cached_companies_usable(c.timestamp@, now as int) {
                r == Some(c.companies)
            } else {
                r is None
            },
            None => r is None,
        },
{
    match cache {
        Some(c) => if cached_companies_usable(c.timestamp.as_str(), now) {
            Some(c.companies)
        } else {
            None
        },
        None => None,
    }
}

/// The backend's base URL followed by `path`.
fn backend_url(path: &str) -> (r: String)
    ensures
        r@ == BACKEND_URL@ + path@,
{
    let mut url = String::from_str(BACKEND_URL);
    url.append(path);
    url
}

/// Where the list of companies is fetched.
pub fn companies_url() -> (r: String)
    ensures
        r@ == BACKEND_URL@ + "/colis-prive/companies"@,
{
    backend_url("/colis-prive/companies")
}

/// Where a login is sent.
pub fn auth_url() -> (r: String)
    ensures
        r@ == BACKEND_URL@ + "/colis-prive/auth"@,
{
    backend_url("/colis-prive/auth")
}

/// Where a company registration is sent.
pub fn register_url() -> (r: String)
    ensures
        r@ == BACKEND_URL@ + "/company/register"@,
{
    backend_url("/company/register")
}

/// The error of a refused request of the company list or of a login.
pub fn http_error_message(status: u16) -> (r: String)
    ensures
        r@ == "HTTP error: "@ + decimal(status as nat),
{
    let mut out = String::from_str("HTTP error: ");
    push_decimal(&mut out, status as usize);
    out
}

/// The error of a refused registration, with the text the backend sent.
pub fn register_error_message(status: u16, body: &str) -> (r: String)
    ensures
        r@ == "HTTP error "@ + decimal(status as nat) + ": "@ + body@,
{
    let mut out = String::from_str("HTTP error ");
    push_decimal(&mut out, status as usize);
    out.append(": ");
    out.append(body);
    out
}

/// The stored list of companies serves for 24 hours from the time it was
/// stored, measured in milliseconds, and not when its time does not read.
pub proof fn law_companies_list_serves_for_a_day(stored_at: Seq<char>, now: int)
    ensures
        rfc3339_millis(stored_at) is None ==> !spec_cached_companies_usable(stored_at, now),
        (rfc3339_millis(stored_at) matches Some(t) && now >= t) ==>
            (spec_cached_companies_usable(stored_at, now) <==> now - rfc3339_millis(stored_at).unwrap() < 86_400_000),
{
}

} // verus!
