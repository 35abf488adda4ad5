//! The bearer-token check guarding the send route: it reads the raw
//! `Authorization` header value, splits the token out of the `Bearer `
//! scheme, and tests it for equality with the API key.
//!
//! A request without the header, with another scheme, or with a token that
//! differs from the key is rejected as `Unauthorized` before anything
//! downstream of the check runs.

use vstd::prelude::*;
use vstd::string::StrSliceExecFns;

use crate::error::RelayError;

verus! {

/// The token carried by an `Authorization` header value: the rest of the
/// value after the exact `Bearer ` scheme prefix, or nothing when the value
/// does not use that scheme.
pub open spec fn spec_bearer_token(h: Seq<char>) -> Option<Seq<char>> {
    if h.len() >= 7 && h.subrange(0, 7) == "Bearer "@ {
        Some(h.subrange(7, h.len() as int))
    } else {
        None
    }
}

/// Whether a request carrying `header` (the raw `Authorization` value, or
/// nothing when the header is absent) is authorized against the key.
pub open spec fn spec_authorized(header: Option<&str>, key: Seq<char>) -> bool {
    match header {
        Some(h) => spec_bearer_token(h@) == Some(key),
        None => false,
    }
}

/// Splits the bearer token out of a raw `Authorization` header value:
/// everything after the `Bearer ` prefix. Any other shape carries no token.
pub fn extract_bearer<'a>(header: &'a str) -> (t: Option<&'a str>)
    ensures
        t matches Some(tok) ==> spec_bearer_token(header@) == Some(tok@),
        t is None ==> spec_bearer_token(header@) is None,
{
    let n = header.unicode_len();
    if n < 7 {
        return None;
    }
    let scheme = header.substring_char(0, 7);
    if scheme.to_owned() == "Bearer ".to_owned() {
        Some(header.substring_char(7, n))
    } else {
        None
    }
}

/// Whether two strings hold the same characters.
fn str_eq(a: &str, b: &str) -> (r: bool)
    ensures
        r == (a@ == b@),
{
    a.to_owned() == b.to_owned()
}

/// Admits a request exactly when its `Authorization` header holds a bearer
/// token that equals `key`, and answers `Unauthorized` in every other case.
/// Nothing but the header value and the key enters the verdict, so it is the
/// same whatever request body stands behind it.
pub fn auth(header: Option<&str>, key: &str) -> (r: Result<(), RelayError>)
    ensures
        r is Ok <==> spec_authorized(header, key@),
        r is Err ==> r matches Err(RelayError::Unauthorized),
{
    let token = match header {
        Some(h) => match extract_bearer(h) {
            Some(t) => t,
            None => { return Err(RelayError::Unauthorized) },
        },
        None => { return Err(RelayError::Unauthorized) },
    };
    if str_eq(token, key) {
        Ok(())
    } else {
        Err(RelayError::Unauthorized)
    }
}

} // verus!
