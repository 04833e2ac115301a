//! The requests of users and what is stored of a user.

use crate::auth_logic::jwt_functions::Claims;
use crate::text::byte_len;
use crate::text::has_prefix;
use crate::text::len_in_bytes;
use crate::text::skip_chars;
use crate::text::starts_with;
use vstd::prelude::*;

verus! {

/// What a user sends to log in.
#[derive(Debug, Clone, PartialEq, Eq)]
pub struct LoginRequest {
    pub username: String,
    pub password: String,
}

/// What a user sends to sign up.
#[derive(Debug, Clone, PartialEq, Eq)]
pub struct RegistrationRequest {
    pub username: String,
    pub nickname: String,
    pub profile_pic_path: String,
    pub password: String,
}

/// A user as stored.
#[derive(Debug, Clone, PartialEq, Eq)]
pub struct User {
    pub id: i32,
    pub name: String,
    pub nickname: String,
    pub profile_pic_path: String,
    pub password_hash: String,
}

/// A user who has shown a valid access token.
#[derive(Debug, Clone, PartialEq, Eq)]
pub struct AuthenticatedUser {
    pub username: String,
}

/// The shortest name and the shortest password, in bytes, that count as
/// credentials in valid form.
pub const MIN_CREDENTIAL_BYTES: usize = 4;

impl LoginRequest {
    /// Whether name and password are long enough to be credentials.
    pub open spec fn valid_form(&self) -> bool {
        &&& byte_len(self.username@) >= MIN_CREDENTIAL_BYTES
        &&& byte_len(self.password@) >= MIN_CREDENTIAL_BYTES
    }

    /// Says whether name and password are long enough to be credentials.
    pub fn has_valid_form(&self) -> (valid: bool)
        ensures
            valid == self.valid_form(),
    {
        len_in_bytes(self.username.as_str()) >= MIN_CREDENTIAL_BYTES && len_in_bytes(
            self.password.as_str(),
        ) >= MIN_CREDENTIAL_BYTES
    }
}

impl User {
    /// The user as it may be shown to the outside: with the password hash
    /// blanked.
    pub fn without_password_hash(self) -> (shown: User)
        ensures
            shown.id == self.id,
            shown.name == self.name,
            shown.nickname == self.nickname,
            shown.profile_pic_path == self.profile_pic_path,
            shown.password_hash@ == Seq::<char>::empty(),
    {
        User {
            id: self.id,
            name: self.name,
            nickname: self.nickname,
            profile_pic_path: self.profile_pic_path,
            password_hash: String::new(),
        }
    }
}

impl AuthenticatedUser {
    /// The user that a token's claims stand for.
    pub fn from_claims(claims: Claims) -> (user: AuthenticatedUser)
        ensures
            user.username == claims.sub,
    {
        AuthenticatedUser { username: claims.sub }
    }
}

/// The token in the value of an `Authorization` header: what follows the
/// word `Bearer` and one space. A value that does not begin so holds no
/// token.
pub open spec fn bearer_token_spec(auth_str: Seq<char>) -> Option<Seq<char>> {
    if has_prefix(auth_str, "Bearer "@) {
        Some(auth_str.skip(7))
    } else {
        None
    }
}

/// The token in the value of an `Authorization` header, if it holds one.
pub fn bearer_token(auth_str: &str) -> (token: Option<String>)
    ensures
        token is Some <==> bearer_token_spec(auth_str@) is Some,
        token matches Some(text) ==> bearer_token_spec(auth_str@) == Some(text@),
{
    proof {
        reveal_strlit("Bearer ");
    }
    if starts_with(auth_str, "Bearer ") {
        Some(skip_chars(auth_str, 7))
    } else {
        None
    }
}

} // verus!
