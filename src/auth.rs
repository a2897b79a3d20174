//! The shared-secret gate in front of the admin operations: the dashboard
//! login and the bearer check on each admin request.

use vstd::prelude::*;

use axum::http::HeaderValue;

verus! {

/// http's header value, carried through unopened.
#[verifier::external_type_specification]
#[verifier::external_body]
pub struct ExHeaderValue(HeaderValue);

/// A login attempt from the dashboard.
pub struct LoginForm {
    pub token: String,
}

/// The answer to a login attempt.
pub struct LoginResponse {
    pub ok: bool,
    pub error: Option<String>,
}

/// Whether `s` begins with `p`.
pub open spec fn has_prefix(s: Seq<char>, p: Seq<char>) -> bool {
    p.len() <= s.len() && s.subrange(0, p.len() as int) == p
}

/// Whether a character may stand in an HTTP header value: a tab, or any
/// character from the space up other than DEL.
pub open spec fn header_char(c: char) -> bool {
    (c as u32 >= 32 && c as u32 != 127) || c == '\t'
}

pub open spec fn header_safe(s: Seq<char>) -> bool {
    forall|i: int| 0 <= i < s.len() ==> header_char(#[trigger] s[i])
}

/// Relies on str::strip_prefix with a string pattern: what follows `p` when
/// `s` begins with it.
#[verifier::external_body]
fn strip_prefix<'a>(s: &'a str, p: &str) -> (r: Option<&'a str>)
    ensures
        r is Some <==> has_prefix(s@, p@),
        r matches Some(rest) ==> rest@ == s@.subrange(p@.len() as int, s@.len() as int),
{
    s.strip_prefix(p)
}

/// Relies on http's HeaderValue::from_str, which refuses a string holding a
/// byte below 32 other than a tab, or the byte 127. Every other byte of a
/// UTF-8 string, those of multi-byte characters included, is accepted.
#[verifier::external_body]
fn header_value(s: &str) -> (r: Option<HeaderValue>)
    ensures
        r is Some <==> header_safe(s@),
{
    HeaderValue::from_str(s).ok()
}

/// Proof that an admin request carried the shared secret.
pub struct AuthToken(pub HeaderValue);

/// Why an admin request was turned away.
pub struct RejectAuthToken {
    pub ok: bool,
    pub error: &'static str,
}

/// The verdict on an Authorization header: `Ok` exactly when it is `Bearer `
/// followed by the secret and nothing else, and the secret may stand in a
/// header value; else the reason.
pub open spec fn authorization(header: Option<Seq<char>>, secret: Seq<char>) -> Result<(), Seq<char>> {
    match header {
        None => Err("Missing Authorization header"@),
        Some(h) => if !has_prefix(h, "Bearer "@) {
            Err("Missing Bearer prefix"@)
        } else if h.subrange(7, h.len() as int) != secret {
            Err("Invalid token"@)
        } else if !header_safe(secret) {
            Err("Invalid token format"@)
        } else {
            Ok(())
        },
    }
}

fn reject(error: &'static str) -> (r: RejectAuthToken)
    ensures
        !r.ok,
        r.error@ == error@,
{
    RejectAuthToken { ok: false, error }
}

/// Checks the Authorization header of an admin request against `secret`.
pub fn authorize(header: Option<&str>, secret: &String) -> (r: Result<AuthToken, RejectAuthToken>)
    ensures
        match (r, authorization(
            match header {
                Some(h) => Some(h@),
                None => None,
            },
            secret@,
        )) {
            (Ok(_), Ok(())) => true,
            (Err(e), Err(m)) => !e.ok && e.error@ == m,
            _ => false,
        },
{
    proof {
        reveal_strlit("Bearer ");
    }
    match header {
        None => Err(reject("Missing Authorization header")),
        Some(h) => match strip_prefix(h, "Bearer ") {
            None => Err(reject("Missing Bearer prefix")),
            Some(rest) => {
                let token = rest.to_owned();
                if !token.eq(secret) {
                    return Err(reject("Invalid token"));
                }
                match header_value(token.as_str()) {
                    Some(v) => Ok(AuthToken(v)),
                    None => Err(reject("Invalid token format")),
                }
            },
        },
    }
}

/// Checks a dashboard login: accepted exactly when a secret is configured and
/// the submitted token equals it.
pub fn auth_login(secret: Option<&String>, form: &LoginForm) -> (r: LoginResponse)
    ensures
        r.ok == (secret matches Some(s) && s@ == form.token@),
        r.ok ==> r.error is None,
        !r.ok ==> r.error.deep_view() == Some("Invalid token"@),
{
    let accepted = match secret {
        Some(s) => s.eq(&form.token),
        None => false,
    };
    if accepted {
        LoginResponse { ok: true, error: None }
    } else {
        LoginResponse { ok: false, error: Some(String::from_str("Invalid token")) }
    }
}

} // verus!
