//! The attributes of the session cookie.

use vstd::prelude::*;
use crate::middleware::security_headers::Environment;

verus! {

broadcast use vstd::string::group_string_axioms;

/// The session cookie to send: `name=value` with these attributes.
#[derive(Debug, Clone)]
pub struct SessionCookieSpec {
    pub name: String,
    pub value: String,
    pub http_only: bool,
    /// `SameSite=Lax`.
    pub same_site_lax: bool,
    pub path: String,
    pub secure: bool,
    pub max_age_secs: i64,
}

/// Whether the session cookie is marked `Secure`: in production only.
pub fn cookie_is_secure(env: Environment) -> (r: bool)
    ensures
        r == (env == Environment::Production),
{
    env == Environment::Production
}

/// The session cookie carrying `value` under `name`: HTTP-only,
/// `SameSite=Lax`, path `/`, `Secure` as given, living for the session
/// lifetime (`ttl_secs` seconds, as a signed count).
pub fn session_cookie(name: &str, value: &str, secure: bool, ttl_secs: u64) -> (r:
    SessionCookieSpec)
    ensures
        r.name@ == name@,
        r.value@ == value@,
        r.http_only,
        r.same_site_lax,
        r.path@ == "/"@,
        r.secure == secure,
        r.max_age_secs == ttl_secs as i64,
{
    SessionCookieSpec {
        name: String::from_str(name),
        value: String::from_str(value),
        http_only: true,
        same_site_lax: true,
        path: String::from_str("/"),
        secure,
        max_age_secs: ttl_secs as i64,
    }
}

} // verus!
