//! The refresh-token cookie: `rt`, httpOnly, Secure, SameSite=Strict, scoped
//! to `/api/auth`.
use vstd::prelude::*;
use crate::decimal::int_decimal;
use crate::text::owned;
use axum_extra::extract::cookie::{Cookie as Built, SameSite as Site};

verus! {

/// The cookie's `SameSite` attribute.
#[derive(Clone, Copy, PartialEq, Eq, Structural, Debug)]
pub enum SameSite {
    Strict,
    Lax,
    /// Written `SameSite=None`: sent with cross-site requests too.
    Unrestricted,
}

/// A `Set-Cookie` with its name, value and attributes.
pub struct Cookie {
    pub name: String,
    pub value: String,
    pub http_only: bool,
    pub secure: bool,
    pub same_site: SameSite,
    pub path: String,
    pub max_age_seconds: i64,
}

/// `rt`, the refresh-token cookie's name.
pub open spec fn rt_cookie_name() -> Seq<char> {
    seq!['r', 't']
}

/// `/api/auth`, the path the refresh-token cookie is sent to.
pub open spec fn rt_path() -> Seq<char> {
    seq!['/', 'a', 'p', 'i', '/', 'a', 'u', 't', 'h']
}

/// The name of a `SameSite` value.
pub open spec fn same_site_label(s: SameSite) -> Seq<char> {
    match s {
        SameSite::Strict => seq!['S', 't', 'r', 'i', 'c', 't'],
        SameSite::Lax => seq!['L', 'a', 'x'],
        SameSite::Unrestricted => seq!['N', 'o', 'n', 'e'],
    }
}

/// The `Set-Cookie` header value of a cookie, as the `cookie` crate writes it:
/// `name=value`, then `; HttpOnly`, `; SameSite=..`, `; Secure`, `; Path=..`
/// and `; Max-Age=..` (the value is not percent-encoded).
pub open spec fn header_spec(c: Cookie) -> Seq<char> {
    c.name@ + seq!['='] + c.value@ + (if c.http_only {
        seq![';', ' ', 'H', 't', 't', 'p', 'O', 'n', 'l', 'y']
    } else {
        Seq::empty()
    }) + seq![';', ' ', 'S', 'a', 'm', 'e', 'S', 'i', 't', 'e', '='] + same_site_label(c.same_site)
        + (if c.secure {
        seq![';', ' ', 'S', 'e', 'c', 'u', 'r', 'e']
    } else {
        Seq::empty()
    }) + seq![';', ' ', 'P', 'a', 't', 'h', '='] + c.path@ + seq![
        ';',
        ' ',
        'M',
        'a',
        'x',
        '-',
        'A',
        'g',
        'e',
        '=',
    ] + int_decimal(c.max_age_seconds as int)
}

/// The `Set-Cookie` header value of `c`, written by the `cookie` crate (built
/// through `axum_extra`'s cookie builder and rendered by its `Display`).
/// Claimed: the format of `header_spec`, which follows `Cookie::fmt` and
/// `fmt_parameters` in the source for a cookie with these attributes set
/// explicitly and no domain or expiry.
#[verifier::external_body]
fn render_set_cookie(c: &Cookie) -> (res: String)
    ensures
        res@ == header_spec(*c),
{
    let site = match c.same_site {
        SameSite::Strict => Site::Strict,
        SameSite::Lax => Site::Lax,
        SameSite::Unrestricted => Site::None,
    };
    Built::build((c.name.clone(), c.value.clone())).http_only(c.http_only).secure(c.secure)
        .same_site(site).path(c.path.clone()).max_age(time::Duration::seconds(c.max_age_seconds))
        .build().to_string()
}

impl Cookie {
    /// The `Set-Cookie` header value of the cookie.
    pub fn header(&self) -> (res: String)
        ensures
            res@ == header_spec(*self),
    {
        render_set_cookie(self)
    }
}

/// The refresh-token cookie holding `value` for `max_age_secs` seconds.
pub fn rt_cookie(value: String, max_age_secs: i64) -> (res: Cookie)
    ensures
        res.name@ == rt_cookie_name(),
        res.value == value,
        res.http_only,
        res.secure,
        res.same_site == SameSite::Strict,
        res.path@ == rt_path(),
        res.max_age_seconds == max_age_secs,
{
    proof {
        reveal_strlit("rt");
        reveal_strlit("/api/auth");
    }
    assert("rt"@ =~= rt_cookie_name());
    assert("/api/auth"@ =~= rt_path());
    Cookie {
        name: owned("rt"),
        value,
        http_only: true,
        secure: true,
        same_site: SameSite::Strict,
        path: owned("/api/auth"),
        max_age_seconds: max_age_secs,
    }
}

/// A removal cookie (same name and path, empty, already expired) that clears
/// the refresh token.
pub fn clear_rt_cookie() -> (res: Cookie)
    ensures
        res.name@ == rt_cookie_name(),
        res.value@ == Seq::<char>::empty(),
        res.http_only,
        res.secure,
        res.same_site == SameSite::Strict,
        res.path@ == rt_path(),
        res.max_age_seconds == 0,
{
    proof {
        reveal_strlit("");
    }
    let c = rt_cookie(owned(""), 0);
    c
}

} // verus!
