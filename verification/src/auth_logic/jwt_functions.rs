//! The claims that a session token carries.
//!
//! A token is signed and read elsewhere; here it is decided what a new token
//! claims: whom it stands for, of which kind it is, and when it expires.

use crate::text::same_text;
use vstd::prelude::*;
use vstd::string::StringExecFns;

verus! {

/// How long an access token is valid, in seconds: 15 minutes.
pub const ACCESS_LIFETIME_SECONDS: i64 = 900;

/// How long a refresh token is valid, in seconds: 30 days.
pub const REFRESH_LIFETIME_SECONDS: i64 = 2_592_000;

/// The claims of a session token.
#[allow(non_snake_case)]
#[derive(Debug, Clone, PartialEq, Eq)]
pub struct Claims {
    /// The user that the token stands for.
    pub sub: String,
    /// When the token expires, in seconds since the epoch.
    pub exp: usize,
    /// The kind of token: `access` or `refresh`.
    pub tokenType: String,
}

/// Why no claims could be made.
#[derive(Debug, Clone, Copy, PartialEq, Eq, Structural)]
pub enum ClaimsError {
    /// The kind of token asked for is neither `access` nor `refresh`.
    InvalidTokenType,
    /// The time of expiry cannot be written as a count of seconds since the
    /// epoch.
    ExpiryOutOfRange,
}

/// How long a token of the given kind is valid, in seconds; `None` for a
/// kind that does not exist.
pub open spec fn token_lifetime(token_type: Seq<char>) -> Option<int> {
    if token_type == "access"@ {
        Some(ACCESS_LIFETIME_SECONDS as int)
    } else if token_type == "refresh"@ {
        Some(REFRESH_LIFETIME_SECONDS as int)
    } else {
        None
    }
}

/// Both kinds of token have a lifetime: an access token 15 minutes, a
/// refresh token 30 days.
pub proof fn law_token_kinds_have_lifetimes()
    ensures
        token_lifetime("access"@) == Some(900int),
        token_lifetime("refresh"@) == Some(2_592_000int),
{
    reveal_strlit("access");
    reveal_strlit("refresh");
    assert("access"@.len() != "refresh"@.len());
}

/// Whether a token issued at `now` with the given lifetime has an expiry
/// that can be written down.
pub open spec fn expiry_in_range(now: i64, lifetime: int) -> bool {
    0 <= now + lifetime <= usize::MAX
}

/// How long a token of the given kind is valid, in seconds.
pub fn token_lifetime_seconds(token_type: &str) -> (lifetime: Option<i64>)
    ensures
        lifetime matches Some(seconds) ==> token_lifetime(token_type@) == Some(seconds as int),
        lifetime is None ==> token_lifetime(token_type@) is None,
{
    if same_text(token_type, "access") {
        Some(ACCESS_LIFETIME_SECONDS)
    } else if same_text(token_type, "refresh") {
        Some(REFRESH_LIFETIME_SECONDS)
    } else {
        None
    }
}

/// The second in which a token issued at `now` expires, if it can be
/// written down.
pub fn expiry_after(now: i64, lifetime: i64) -> (expiry: Option<usize>)
    ensures
        expiry is Some <==> expiry_in_range(now, lifetime as int),
        expiry matches Some(second) ==> second == now + lifetime,
{
    let second: i128 = now as i128 + lifetime as i128;
    if second < 0 || second > usize::MAX as i128 {
        None
    } else {
        Some(second as usize)
    }
}

/// The claims of a token of kind `token_type` issued to `uid` at `now`,
/// given in seconds since the epoch. The kind decides the lifetime; a kind
/// that does not exist is refused.
pub fn claims_for(uid: &str, token_type: &str, now: i64) -> (result: Result<Claims, ClaimsError>)
    ensures
        match result {
            Ok(claims) => {
                &&& token_lifetime(token_type@) matches Some(lifetime)
                &&& expiry_in_range(now, lifetime)
                &&& claims.sub@ == uid@
                &&& claims.exp == now + lifetime
                &&& claims.tokenType@ == token_type@
            },
            Err(ClaimsError::InvalidTokenType) => token_lifetime(token_type@) is None,
            Err(ClaimsError::ExpiryOutOfRange) => {
                &&& token_lifetime(token_type@) matches Some(lifetime)
                &&& !expiry_in_range(now, lifetime)
            },
        },
{
    let lifetime = match token_lifetime_seconds(token_type) {
        Some(seconds) => seconds,
        None => {
            return Err(ClaimsError::InvalidTokenType);
        },
    };
    match expiry_after(now, lifetime) {
        Some(exp) => Ok(
            Claims {
                sub: String::from_str(uid),
                exp,
                tokenType: String::from_str(token_type),
            },
        ),
        None => Err(ClaimsError::ExpiryOutOfRange),
    }
}

} // verus!
