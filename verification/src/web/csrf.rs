//! Cross-site request forgery protection by double submission: a state
//! changing request must echo the token of its `csrf_token` cookie in its
//! `X-CSRF-Token` header.
use crate::crypto::primitives::{base64_url_encode, base64_url_nopad_text};
use crate::text::{push_str, str_eq, string_of};
use crate::web::session::{cookie_named, cookie_named_exec};
use rand::Rng;
use vstd::prelude::*;

verus! {

broadcast use vstd::string::group_string_axioms;

/// The mark of a request that passed the check.
#[derive(Debug, Clone)]
pub struct CsrfVerified(pub bool);

/// What the check decides.
#[derive(Debug)]
pub enum CsrfDecision {
    /// A safe method: no check.
    Pass,
    /// The header echoes the cookie.
    Verified(CsrfVerified),
    /// Refused with this status and message.
    Reject(u16, &'static str),
}

/// The token of the `csrf_token` cookie in a `Cookie` header.
pub fn csrf_cookie_token(cookie_header: Option<&str>) -> (r: Option<String>)
    ensures
        match cookie_header {
            Some(h) => match r {
                Some(t) => cookie_named(h@, "csrf_token="@) == Some(t@),
                None => cookie_named(h@, "csrf_token="@).is_none(),
            },
            None => r.is_none(),
        },
{
    match cookie_header {
        Some(h) => cookie_named_exec(h, "csrf_token="),
        None => None,
    }
}

/// The check of a request: safe methods pass; others pass only where the
/// header carries the cookie's token, and are refused with 403 otherwise.
pub fn csrf_decision(safe_method: bool, header: Option<&str>, cookie_header: Option<&str>) -> (r: CsrfDecision)
    ensures
        safe_method ==> r is Pass,
        !safe_method ==> ({
            let ok = match (header, cookie_header) {
                (Some(h), Some(c)) => cookie_named(c@, "csrf_token="@) == Some(h@),
                _ => false,
            };
            &&& ok ==> (r matches CsrfDecision::Verified(v) && v.0)
            &&& !ok ==> (r matches CsrfDecision::Reject(s, m) && s == 403 && m@ == "CSRF 验证失败"@)
        }),
{
    if safe_method {
        return CsrfDecision::Pass;
    }
    let cookie = csrf_cookie_token(cookie_header);
    match (header, cookie) {
        (Some(h), Some(c)) => if str_eq(h, c.as_str()) {
            CsrfDecision::Verified(CsrfVerified(true))
        } else {
            CsrfDecision::Reject(403, "CSRF 验证失败")
        },
        _ => CsrfDecision::Reject(403, "CSRF 验证失败"),
    }
}

/// `Rng::fill` of rand's thread-local generator: overwrites `buf` with
/// random bytes, of which nothing is stated.
#[verifier::external_body]
fn thread_rng_fill(buf: &mut [u8; 32]) {
    rand::thread_rng().fill(buf)
}

/// A fresh token: 32 random bytes in URL-safe Base64 without padding.
pub fn generate_csrf_token() -> (r: String)
    ensures
        exists|bytes: Seq<u8>| bytes.len() == 32 && r@ == base64_url_nopad_text(bytes),
{
    let mut bytes = [0u8; 32];
    thread_rng_fill(&mut bytes);
    let r = base64_url_encode(&bytes);
    assert(bytes@.len() == 32);
    r
}

/// The cookie that carries a CSRF token for a day.
pub fn csrf_cookie(token: &str) -> (r: String)
    ensures
        r@ == "csrf_token="@ + token@ + "; HttpOnly; SameSite=Strict; Path=/; Max-Age=86400"@,
{
    let mut out: Vec<char> = Vec::new();
    push_str(&mut out, "csrf_token=");
    push_str(&mut out, token);
    push_str(&mut out, "; HttpOnly; SameSite=Strict; Path=/; Max-Age=86400");
    string_of(&out)
}

} // verus!
