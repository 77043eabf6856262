//! Cookies, and the `Set-Cookie` header that sends one.

use vstd::prelude::*;
use vstd::string::StringExecFns;
use crate::headers::header_views;
use crate::response::Response;
use crate::text::{from_chars, lowercase, same_chars, to_chars, trim, trimmed};
use crate::wire;

verus! {

/// The `SameSite` attribute of a cookie.
#[derive(Debug, Clone, Copy, PartialEq, Eq, Structural)]
pub enum SameSite {
    /// `SameSite=Strict`.
    Strict,
    /// `SameSite=Lax`.
    Lax,
    /// `SameSite=None`, which also makes the cookie `Secure`.
    NoRestriction,
}

/// The attribute with the given name: `strict` and `lax` name themselves,
/// every other name stands for [`SameSite::NoRestriction`].
pub open spec fn same_site_called(name: Seq<char>) -> SameSite {
    if name == "strict"@ {
        SameSite::Strict
    } else if name == "lax"@ {
        SameSite::Lax
    } else {
        SameSite::NoRestriction
    }
}

/// The attribute that a word stands for: the one called by the word in lower
/// case, without the whitespace around it.
pub open spec fn same_site_named(word: Seq<char>) -> SameSite {
    same_site_called(lowercase(trimmed(word)))
}

impl SameSite {
    /// The attribute called `name`, letter for letter.
    pub fn called(name: &str) -> (attribute: SameSite)
        ensures
            attribute == same_site_called(name@),
    {
        let name = to_chars(name);
        if same_chars(&name, &to_chars("strict")) {
            SameSite::Strict
        } else if same_chars(&name, &to_chars("lax")) {
            SameSite::Lax
        } else {
            SameSite::NoRestriction
        }
    }
}

/// Values that say which `SameSite` attribute a cookie gets.
pub trait IntoSameSite: Sized {
    /// The attribute that the value stands for.
    spec fn same_site(self) -> SameSite;

    /// Converts the value into the attribute it stands for.
    fn into_same_site(self) -> (attribute: SameSite)
        ensures
            attribute == self.same_site(),
    ;
}

impl IntoSameSite for SameSite {
    open spec fn same_site(self) -> SameSite {
        self
    }

    fn into_same_site(self) -> SameSite {
        self
    }
}

impl IntoSameSite for &str {
    open spec fn same_site(self) -> SameSite {
        same_site_named(self@)
    }

    fn into_same_site(self) -> SameSite {
        let word = from_chars(&trim(&to_chars(self)));
        SameSite::called(word.as_str().to_lowercase().as_str())
    }
}

/// What a cookie holds.
pub struct CookieParts {
    /// The name of the cookie.
    pub name: Seq<char>,
    /// The value of the cookie.
    pub value: Seq<char>,
    /// Whether the cookie is sent over HTTPS only.
    pub secure: bool,
    /// Whether the cookie is kept from scripts.
    pub http_only: bool,
    /// The `SameSite` attribute of the cookie.
    pub same_site: SameSite,
}

/// The text of the `SameSite` attribute.
pub open spec fn same_site_text(same_site: SameSite) -> Seq<char> {
    match same_site {
        SameSite::Strict => "; SameSite=Strict"@,
        SameSite::Lax => "; SameSite=Lax"@,
        SameSite::NoRestriction => "; SameSite=None"@,
    }
}

/// Whether the cookie is sent as `Secure`: it is marked so, or its
/// `SameSite` attribute is `None`, which browsers accept only on secure
/// cookies.
pub open spec fn sent_secure(cookie: CookieParts) -> bool {
    cookie.secure || cookie.same_site is NoRestriction
}

/// The value of the `Set-Cookie` header that sends the cookie: name and
/// value, then `HttpOnly`, `SameSite` and `Secure` as far as they apply.
pub open spec fn cookie_text(cookie: CookieParts) -> Seq<char> {
    cookie.name + "="@ + cookie.value + (if cookie.http_only {
        "; HttpOnly"@
    } else {
        Seq::empty()
    }) + same_site_text(cookie.same_site) + (if sent_secure(cookie) {
        "; Secure"@
    } else {
        Seq::empty()
    })
}

/// A cookie.
pub struct Cookie {
    name: &'static str,
    value: &'static str,
    secure: bool,
    http_only: bool,
    same_site: SameSite,
}

impl View for Cookie {
    type V = CookieParts;

    closed spec fn view(&self) -> CookieParts {
        CookieParts {
            name: self.name@,
            value: self.value@,
            secure: self.secure,
            http_only: self.http_only,
            same_site: self.same_site,
        }
    }
}

impl Cookie {
    /// A cookie with the given name and value. `secure` keeps it to HTTPS,
    /// `http_only` keeps it from scripts, and `same_site` says which
    /// `SameSite` attribute it carries.
    pub fn new(
        name: &'static str,
        value: &'static str,
        secure: bool,
        http_only: bool,
        same_site: impl IntoSameSite,
    ) -> (cookie: Self)
        ensures
            cookie@ == (CookieParts {
                name: name@,
                value: value@,
                secure,
                http_only,
                same_site: same_site.same_site(),
            }),
    {
        Cookie { name, value, secure, http_only, same_site: same_site.into_same_site() }
    }

    /// The value of the `Set-Cookie` header that sends this cookie.
    pub fn to_string(&self) -> (text: String)
        ensures
            text@ == cookie_text(self@),
    {
        let mut text = String::new();
        text.append(self.name);
        text.append("=");
        text.append(self.value);
        let mut secure = self.secure;
        if self.http_only {
            text.append("; HttpOnly");
        }
        match self.same_site {
            SameSite::Strict => text.append("; SameSite=Strict"),
            SameSite::Lax => text.append("; SameSite=Lax"),
            SameSite::NoRestriction => {
                secure = true;
                text.append("; SameSite=None");
            },
        }
        if secure {
            text.append("; Secure");
        }
        assert(text@ =~= cookie_text(self@));
        text
    }
}

/// Responses that can carry a cookie.
pub trait CookieResponseBuilder {
    /// The response with a `Set-Cookie` header for `cookie`.
    fn build_with_cookie(self, cookie: Cookie) -> Response;
}

impl CookieResponseBuilder for Response {
    /// Adds the `Set-Cookie` header behind the headers that the response
    /// has; status and body stay.
    fn build_with_cookie(self, cookie: Cookie) -> (res: Response)
        ensures
            res.status == self.status,
            res.body == self.body,
            header_views(res.headers@) == header_views(self.headers@).push(
                ("set-cookie"@, cookie_text(cookie@)),
            ),
    {
        let Response { status, headers: mut headers, body } = self;
        let ghost before = header_views(headers@);
        headers.push((wire::set_cookie(), cookie.to_string()));
        assert(header_views(headers@) =~= before.push(("set-cookie"@, cookie_text(cookie@))));
        Response { status, headers, body }
    }
}

} // verus!
