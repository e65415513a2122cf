use vstd::prelude::*;

use crate::sources::Timestamp;

verus! {

/// How long an access cookie is kept by the browser, in seconds.
pub const COOKIE_LIFETIME_SECS: i64 = 3600;

/// The `SameSite` attribute of a cookie (`Unrestricted` is `SameSite=None`).
#[derive(Debug, Clone, Copy, PartialEq, Eq, Structural)]
pub enum SameSite {
    Strict,
    Lax,
    Unrestricted,
}

/// Everything the server sets on a cookie.
#[derive(Debug)]
pub struct CookieSettings {
    pub name: String,
    pub value: String,
    pub expires: Timestamp,
    pub http_only: bool,
    pub path: String,
    pub same_site: SameSite,
}

/// The Unix time of the last second the cookie library's `time` crate can
/// represent with its `large-dates` feature (December 31 of year 999999);
/// without the feature the limit is year 9999, earlier still.
pub const COOKIE_CLOCK_MAX_SECS: i64 = 31_494_784_780_799;

/// Reads the system clock through the cookie library's
/// `time::OffsetDateTime::now_utc`, as `unix_timestamp` and `nanosecond`.
/// An `OffsetDateTime` cannot lie past the last year `time` represents, and
/// `nanosecond` is documented to lie in `0..1_000_000_000`; which moment is
/// read is not claimed.
#[verifier::external_body]
fn cookie_clock_now() -> (t: Timestamp)
    ensures
        t.secs <= COOKIE_CLOCK_MAX_SECS,
        t.nanos < 1_000_000_000,
{
    let now = tower_cookies::cookie::time::OffsetDateTime::now_utc();
    Timestamp { secs: now.unix_timestamp(), nanos: now.nanosecond() }
}

/// The cookie that carries access token `token` under `name`, set at
/// `now`: it expires one cookie lifetime later, is hidden from scripts,
/// covers the whole site and is sent on top-level navigation from other
/// sites (`SameSite=Lax`).
pub fn cookie_at(name: String, token: String, now: Timestamp) -> (c: CookieSettings)
    requires
        now.secs + COOKIE_LIFETIME_SECS <= i64::MAX,
    ensures
        c.name@ == name@,
        c.value@ == token@,
        c.expires == cookie_expiry(now),
        c.http_only,
        c.path@ == "/"@,
        c.same_site == SameSite::Lax,
{
    CookieSettings {
        name,
        value: token,
        expires: Timestamp { secs: now.secs + COOKIE_LIFETIME_SECS, nanos: now.nanos },
        http_only: true,
        path: "/".to_string(),
        same_site: SameSite::Lax,
    }
}

/// When a cookie set at `now` expires.
pub open spec fn cookie_expiry(now: Timestamp) -> Timestamp {
    Timestamp { secs: (now.secs + COOKIE_LIFETIME_SECS) as i64, nanos: now.nanos }
}

/// The cookie that carries access token `token` under `name`, set now: it
/// expires one cookie lifetime after the clock reading.
pub fn produce_cookie(name: String, token: String) -> (c: CookieSettings)
    ensures
        c.name@ == name@,
        c.value@ == token@,
        c.http_only,
        c.path@ == "/"@,
        c.same_site == SameSite::Lax,
        exists|now: Timestamp|
            now.secs <= COOKIE_CLOCK_MAX_SECS && now.nanos < 1_000_000_000 && c.expires == cookie_expiry(now),
{
    let now = cookie_clock_now();
    cookie_at(name, token, now)
}

} // verus!
