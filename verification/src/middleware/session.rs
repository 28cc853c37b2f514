//! The session cookie policy.
//!
//! The session store keeps all its state in one client-held cookie.  This
//! module pins the attributes that cookie is issued with: its name, that
//! it is unreadable by scripts, never sent cross-site, confidential, and
//! cleared when the browser session ends.

use vstd::prelude::*;

verus! {

/// The attributes the session cookie is issued with.
pub struct SessionSettings {
    /// Name of the session cookie.
    pub cookie_name: &'static str,
    /// Whether the cookie is restricted to HTTPS transports.
    pub cookie_secure: bool,
    /// Whether the cookie lasts only for the browser session.
    pub browser_session: bool,
    /// Whether the cookie is withheld from cross-site navigation.
    pub same_site_strict: bool,
    /// Whether the cookie's content is encrypted and authenticated.
    pub private_content: bool,
    /// Whether the cookie is inaccessible to scripts.
    pub http_only: bool,
}

/// The policy the session store is wired with: a browser-session `token`
/// cookie, HttpOnly, SameSite=Strict, with confidential content.
pub fn session_middleware() -> (r: SessionSettings)
    ensures
        r.cookie_name@ == "token"@,
        !r.cookie_secure,
        r.browser_session,
        r.same_site_strict,
        r.private_content,
        r.http_only,
{
    SessionSettings {
        cookie_name: "token",
        cookie_secure: false,
        browser_session: true,
        same_site_strict: true,
        private_content: true,
        http_only: true,
    }
}

} // verus!
