//! Who a request comes from: the session token of its cookies or its
//! bearer header, and the cookies that set and clear it.
use crate::crypto::system_key::SystemKey;
use crate::error::AUTH_003;
use crate::pattern::{slice_from, split, split_exec};
use crate::publish::encoding::opt_strings_view;
use crate::text::{chars_of, push_str, starts_with, starts_with_exec, string_of, trim, trim_exec};
use crate::types::ApiError;
use vstd::prelude::*;

verus! {

broadcast use vstd::string::group_string_axioms;

/// The user a request was authenticated as, with its session token.
#[derive(Debug, Clone)]
pub struct AuthUser {
    pub user_id: i64,
    pub token: String,
}

/// The cookie that clears the session.
pub const LOGOUT_COOKIE: &'static str = "token=; HttpOnly; SameSite=Strict; Path=/; Max-Age=0";

/// `s` without the prefix `p`, where it starts with it.
pub open spec fn strip_prefix(s: Seq<char>, p: Seq<char>) -> Option<Seq<char>> {
    if starts_with(s, p) {
        Some(s.skip(p.len() as int))
    } else {
        None
    }
}

/// The value after `prefix` of the first trimmed piece that starts with it.
pub open spec fn prefixed_piece(pieces: Seq<Seq<char>>, prefix: Seq<char>) -> Option<Seq<char>>
    decreases pieces.len(),
{
    if pieces.len() == 0 {
        None
    } else {
        match strip_prefix(trim(pieces[0]), prefix) {
            Some(v) => Some(v),
            None => prefixed_piece(pieces.drop_first(), prefix),
        }
    }
}

/// The value of the cookie written `prefix` (such as `token=`) in a
/// cookie header, split at `;`.
pub open spec fn cookie_named(header: Seq<char>, prefix: Seq<char>) -> Option<Seq<char>> {
    prefixed_piece(split(header, seq![';']), prefix)
}

/// The session token of the first cookie header that carries one;
/// headers that are not text are passed over.
pub open spec fn token_in_headers(hs: Seq<Option<Seq<char>>>) -> Option<Seq<char>>
    decreases hs.len(),
{
    if hs.len() == 0 {
        None
    } else {
        match hs[0] {
            Some(h) => match cookie_named(h, "token="@) {
                Some(t) => Some(t),
                None => token_in_headers(hs.drop_first()),
            },
            None => token_in_headers(hs.drop_first()),
        }
    }
}

/// The session token of a request: from its cookies, else from a
/// `Bearer` authorization header.
pub open spec fn request_token_of(hs: Seq<Option<Seq<char>>>, authorization: Option<Seq<char>>) -> Option<Seq<char>> {
    match token_in_headers(hs) {
        Some(t) => Some(t),
        None => match authorization {
            Some(a) => strip_prefix(a, "Bearer "@),
            None => None,
        },
    }
}

fn strip_prefix_exec(s: &[char], p: &str) -> (r: Option<Vec<char>>)
    ensures
        match r {
            Some(v) => strip_prefix(s@, p@) == Some(v@),
            None => strip_prefix(s@, p@).is_none(),
        },
{
    let pv = chars_of(p);
    if starts_with_exec(s, &pv) {
        Some(slice_from(s, pv.len()))
    } else {
        None
    }
}

/// The value of the cookie written `prefix` in the cookie header `header`.
pub fn cookie_named_exec(header: &str, prefix: &str) -> (r: Option<String>)
    ensures
        match r {
            Some(v) => cookie_named(header@, prefix@) == Some(v@),
            None => cookie_named(header@, prefix@).is_none(),
        },
{
    let hv = chars_of(header);
    let sep = vec![';'];
    assert(sep@ =~= seq![';']);
    let pieces = split_exec(&hv, &sep);
    let mut i: usize = 0;
    assert(pieces.deep_view().skip(0) =~= pieces.deep_view());
    while i < pieces.len()
        invariant
            i <= pieces.len(),
            pieces.deep_view() == split(header@, seq![';']),
            cookie_named(header@, prefix@) == prefixed_piece(pieces.deep_view().skip(i as int), prefix@),
        decreases pieces.len() - i,
    {
        assert(pieces.deep_view()[i as int] == pieces[i as int]@);
        assert(pieces.deep_view().skip(i as int).drop_first() =~= pieces.deep_view().skip(i + 1));
        let t = trim_exec(&pieces[i]);
        match strip_prefix_exec(&t, prefix) {
            Some(v) => {
                return Some(string_of(&v));
            },
            None => {},
        }
        i = i + 1;
    }
    None
}

/// The session token of a request with the cookie headers
/// `cookie_headers` (`None` for one that is not text) and the
/// authorization header `authorization`.
pub fn request_token(cookie_headers: &Vec<Option<String>>, authorization: Option<&str>) -> (r: Option<String>)
    ensures
        match r {
            Some(t) => request_token_of(opt_strings_view(cookie_headers@), opt_view(authorization)) == Some(t@),
            None => request_token_of(opt_strings_view(cookie_headers@), opt_view(authorization)).is_none(),
        },
{
    let ghost hs = opt_strings_view(cookie_headers@);
    let mut i: usize = 0;
    assert(hs.skip(0) =~= hs);
    while i < cookie_headers.len()
        invariant
            i <= cookie_headers.len(),
            hs == opt_strings_view(cookie_headers@),
            token_in_headers(hs) == token_in_headers(hs.skip(i as int)),
        decreases cookie_headers.len() - i,
    {
        assert(hs.skip(i as int).drop_first() =~= hs.skip(i + 1));
        assert(hs.skip(i as int)[0] == hs[i as int]);
        match &cookie_headers[i] {
            Some(h) => match cookie_named_exec(h.as_str(), "token=") {
                Some(t) => {
                    return Some(t);
                },
                None => {},
            },
            None => {},
        }
        i = i + 1;
    }
    match authorization {
        Some(a) => {
            let av = chars_of(a);
            match strip_prefix_exec(&av, "Bearer ") {
                Some(v) => Some(string_of(&v)),
                None => None,
            }
        },
        None => None,
    }
}

/// The view of an optional string slice.
pub open spec fn opt_view(o: Option<&str>) -> Option<Seq<char>> {
    match o {
        Some(s) => Some(s@),
        None => None,
    }
}

/// The refusal of a request without a session.
pub fn not_logged_in() -> (r: (u16, ApiError))
    ensures
        r.0 == 401 && r.1.code@ == AUTH_003@ && r.1.message@ == "未登录"@,
{
    (401, ApiError::new(AUTH_003, "未登录"))
}

/// Authenticates a request: refused as not logged in where it carries no
/// token, as expired where the token does not verify (now), else the
/// token's user.
pub fn authenticate(key: &SystemKey, cookie_headers: &Vec<Option<String>>, authorization: Option<&str>) -> (r: Result<AuthUser, (u16, ApiError)>)
    ensures
        request_token_of(opt_strings_view(cookie_headers@), opt_view(authorization)).is_none() ==> (r matches Err(
            e,
        ) && e.0 == 401 && e.1.code@ == AUTH_003@ && e.1.message@ == "未登录"@),
        request_token_of(opt_strings_view(cookie_headers@), opt_view(authorization)) matches Some(t) ==> (
        match r {
            Ok(u) => u.token@ == t,
            Err(e) => e.0 == 401 && e.1.code@ == AUTH_003@ && e.1.message@ == "会话已过期"@,
        }),
{
    let token = match request_token(cookie_headers, authorization) {
        Some(t) => t,
        None => {
            return Err(not_logged_in());
        },
    };
    match key.verify_jwt(token.as_str()) {
        Ok(user_id) => Ok(AuthUser { user_id, token }),
        Err(_) => Err((401, ApiError::new(AUTH_003, "会话已过期"))),
    }
}

/// The cookie that carries a session token for seven days.
pub fn session_cookie(token: &str) -> (r: String)
    ensures
        r@ == "token="@ + token@ + "; HttpOnly; SameSite=Strict; Path=/; Max-Age=604800"@,
{
    let mut out: Vec<char> = Vec::new();
    push_str(&mut out, "token=");
    push_str(&mut out, token);
    push_str(&mut out, "; HttpOnly; SameSite=Strict; Path=/; Max-Age=604800");
    string_of(&out)
}

} // verus!
