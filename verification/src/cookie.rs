//! The cookie a session token travels in.
//!
//! The text of the `Set-Cookie` header is written by the `cookie` crate, as
//! re-exported by `tower_cookies`. The attributes come in the order in which
//! that crate writes them.

use vstd::prelude::*;
use vstd::string::*;

use crate::decimal::decimal;

verus! {

/// When a browser sends the cookie along with requests from other sites.
#[derive(Debug, Clone, Copy, PartialEq, Eq, Structural)]
pub enum SameSite {
    /// Never with requests from other sites.
    Strict,
    /// With top-level navigation from other sites only.
    Lax,
    /// With every request.
    CrossSite,
}

/// The attributes of a cookie.
#[derive(Debug)]
pub struct CookiePolicy {
    pub path: String,
    /// The lifetime of the cookie in seconds.
    pub max_age: u32,
    pub secure: bool,
    pub http_only: bool,
    pub same_site: SameSite,
}

pub struct CookiePolicyView {
    pub path: Seq<char>,
    pub max_age: u32,
    pub secure: bool,
    pub http_only: bool,
    pub same_site: SameSite,
}

impl View for CookiePolicy {
    type V = CookiePolicyView;

    open spec fn view(&self) -> CookiePolicyView {
        CookiePolicyView {
            path: self.path@,
            max_age: self.max_age,
            secure: self.secure,
            http_only: self.http_only,
            same_site: self.same_site,
        }
    }
}

/// The name of a [`SameSite`] value in a header.
pub open spec fn same_site_text(same_site: SameSite) -> Seq<char> {
    match same_site {
        SameSite::Strict => "Strict"@,
        SameSite::Lax => "Lax"@,
        SameSite::CrossSite => "None"@,
    }
}

/// The value of a `Set-Cookie` header: the pair, then the attributes.
pub open spec fn set_cookie_text(name: Seq<char>, value: Seq<char>, policy: CookiePolicyView) -> Seq<
    char,
> {
    name + "="@ + value + (if policy.http_only {
        "; HttpOnly"@
    } else {
        Seq::empty()
    }) + "; SameSite="@ + same_site_text(policy.same_site) + (if policy.secure {
        "; Secure"@
    } else {
        Seq::empty()
    }) + "; Path="@ + policy.path + "; Max-Age="@ + decimal(policy.max_age as nat)
}

/// The name of the cookie that carries the session token.
pub open spec fn session_cookie_name() -> Seq<char> {
    "auth_token"@
}

/// The attributes of the session cookie: sent everywhere on the site, over
/// TLS only, hidden from scripts, for one day.
pub open spec fn session_policy() -> CookiePolicyView {
    CookiePolicyView {
        path: "/"@,
        max_age: 86400,
        secure: true,
        http_only: true,
        same_site: SameSite::Lax,
    }
}

/// Builds a cookie with `Cookie::build` of the `cookie` crate, sets its path,
/// its flags and its lifetime, and formats it with the crate's `Display`.
///
/// The contract writes out what that `Display` prints: name and value as
/// they are, without percent-encoding, then `HttpOnly`, `SameSite`, `Secure`,
/// `Path` and `Max-Age` in this order, the flags only where they are set.
#[verifier::external_body]
fn format_cookie(name: &str, value: &str, policy: &CookiePolicy) -> (text: String)
    ensures
        text@ == set_cookie_text(name@, value@, policy@),
{
    let same_site = match policy.same_site {
        SameSite::Strict => tower_cookies::cookie::SameSite::Strict,
        SameSite::Lax => tower_cookies::cookie::SameSite::Lax,
        SameSite::CrossSite => tower_cookies::cookie::SameSite::None,
    };
    tower_cookies::Cookie::build((name.to_owned(), value.to_owned()))
        .path(policy.path.clone())
        .secure(policy.secure)
        .http_only(policy.http_only)
        .same_site(same_site)
        .max_age(time::Duration::seconds(i64::from(policy.max_age)))
        .to_string()
}

/// The value of the `Set-Cookie` header that hands a session token to a
/// browser.
pub fn session_cookie(token: &str) -> (text: String)
    ensures
        text@ == set_cookie_text(session_cookie_name(), token@, session_policy()),
{
    let policy = CookiePolicy {
        path: String::from_str("/"),
        max_age: 86400,
        secure: true,
        http_only: true,
        same_site: SameSite::Lax,
    };
    format_cookie("auth_token", token, &policy)
}

} // verus!
