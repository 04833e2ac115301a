//! What the handlers of the HTTP service decide.
//!
//! A handler asks the database, the password hasher and the token issuer for
//! their work, one after the other, and answers the request as soon as it
//! knows how. The asking is done elsewhere. Here stands, for every handler,
//! the step from where it is and what came back to where it goes and what is
//! to be done next.

use crate::auth_logic::models::User;
use bcrypt::BcryptError;
use vstd::prelude::*;

verus! {

/// The status `200 OK`.
pub const STATUS_OK: u16 = 200;

/// The status `201 Created`.
pub const STATUS_CREATED: u16 = 201;

/// The status `400 Bad Request`.
pub const STATUS_BAD_REQUEST: u16 = 400;

/// The status `401 Unauthorized`.
pub const STATUS_UNAUTHORIZED: u16 = 401;

/// The status `404 Not Found`.
pub const STATUS_NOT_FOUND: u16 = 404;

/// The status `409 Conflict`.
pub const STATUS_CONFLICT: u16 = 409;

/// The status `500 Internal Server Error`.
pub const STATUS_INTERNAL_SERVER_ERROR: u16 = 500;

/// The status that answers the creation of a stream: `200` if it was
/// created, `400` if it was refused.
pub fn create_stream_status(created: bool) -> (status: u16)
    ensures
        status == (if created {
            STATUS_OK
        } else {
            STATUS_BAD_REQUEST
        }),
{
    if created {
        STATUS_OK
    } else {
        STATUS_BAD_REQUEST
    }
}

/// The status that answers a pushed chunk or a subscription: `200` if the
/// stream was found, `404` if it was not.
pub fn stream_found_status(found: bool) -> (status: u16)
    ensures
        status == (if found {
            STATUS_OK
        } else {
            STATUS_NOT_FOUND
        }),
{
    if found {
        STATUS_OK
    } else {
        STATUS_NOT_FOUND
    }
}

/// The error of the `bcrypt` crate.
#[verifier::external_type_specification]
#[verifier::external_body]
pub struct ExBcryptError(BcryptError);

/// What `bcrypt` finds of a password and a stored hash: whether they match,
/// or `None` where the hash is not one that `bcrypt` can read.
pub uninterp spec fn bcrypt_verdict(password: Seq<char>, hash: Seq<char>) -> Option<bool>;

/// Trusted: `bcrypt::verify`. It reads cost and salt from the stored hash,
/// hashes the password with them and compares; an error stands for a hash
/// that it cannot read. The answer depends on password and hash alone.
#[verifier::external_body]
fn bcrypt_verify(password: &str, hash: &str) -> (verdict: Result<bool, BcryptError>)
    ensures
        verdict matches Ok(matching) ==> bcrypt_verdict(password@, hash@) == Some(matching),
        verdict is Err ==> bcrypt_verdict(password@, hash@) is None,
{
    bcrypt::verify(password, hash)
}

/// Whether the password is the one that the stored hash was made of. A hash
/// that cannot be read matches no password.
pub open spec fn password_accepted(password: Seq<char>, hash: Seq<char>) -> bool {
    bcrypt_verdict(password, hash) == Some(true)
}

/// Says whether the password is the one that the stored hash was made of.
pub fn password_matches(password: &str, password_hash: &str) -> (accepted: bool)
    ensures
        accepted == password_accepted(password@, password_hash@),
{
    match bcrypt_verify(password, password_hash) {
        Ok(matching) => matching,
        Err(_) => false,
    }
}

/// What a search for a user in the database gave.
#[derive(Debug)]
pub enum UserLookup {
    /// The user is stored.
    Found(User),
    /// No such user is stored.
    Missing,
    /// The database could not answer.
    Failed,
}

/// Where the handling of a registration stands.
#[derive(Debug, Clone, Copy, PartialEq, Eq, Structural)]
pub enum RegisterState {
    /// The password is being hashed.
    Hashing,
    /// The database is being connected to.
    Connecting,
    /// The user's name is being searched.
    LookingUp,
    /// The user is being stored.
    Inserting,
    /// The request has been answered.
    Replied,
}

/// What came back while a registration was handled.
#[derive(Debug, Clone, Copy, PartialEq, Eq, Structural)]
pub enum RegisterEvent {
    /// The password was hashed, or could not be.
    Hashed { ok: bool },
    /// The database was connected to, or could not be.
    Connected { ok: bool },
    /// The search found the name taken.
    NameTaken,
    /// The search found the name free.
    NameFree,
    /// The search failed.
    LookupFailed,
    /// The user was stored, or could not be.
    Inserted { ok: bool },
}

/// How a registration is answered.
#[derive(Debug, Clone, Copy, PartialEq, Eq, Structural)]
pub enum RegisterReply {
    /// The password could not be hashed.
    HashingFailed,
    /// The database could not be connected to.
    DatabaseUnavailable,
    /// A user of that name exists.
    UserExists,
    /// The user has been created.
    Created,
    /// The database failed.
    ServerError,
}

/// What is to be done next for a registration.
#[derive(Debug, Clone, Copy, PartialEq, Eq, Structural)]
pub enum RegisterAction {
    /// Connect to the database.
    Connect,
    /// Search for the user's name.
    LookUpUser,
    /// Store the user.
    InsertUser,
    /// Answer the request.
    Reply(RegisterReply),
    /// Nothing: the event does not belong here.
    Ignore,
}

impl RegisterReply {
    /// The status of the answer.
    pub open spec fn status_spec(self) -> u16 {
        match self {
            RegisterReply::UserExists => STATUS_CONFLICT,
            RegisterReply::Created => STATUS_CREATED,
            _ => STATUS_INTERNAL_SERVER_ERROR,
        }
    }

    /// The status of the answer.
    pub fn status(&self) -> (status: u16)
        ensures
            status == self.status_spec(),
    {
        match self {
            RegisterReply::UserExists => STATUS_CONFLICT,
            RegisterReply::Created => STATUS_CREATED,
            _ => STATUS_INTERNAL_SERVER_ERROR,
        }
    }
}

/// The step of a registration: the password is hashed, the database is
/// connected to, the name is searched and, if it is free, the user is
/// stored. The first failure ends the handling with its answer, and so does a
/// name that is taken.
pub open spec fn register_step_spec(state: RegisterState, event: RegisterEvent) -> (
    RegisterState,
    RegisterAction,
) {
    match (state, event) {
        (RegisterState::Hashing, RegisterEvent::Hashed { ok: true }) => (
            RegisterState::Connecting,
            RegisterAction::Connect,
        ),
        (RegisterState::Hashing, RegisterEvent::Hashed { ok: false }) => (
            RegisterState::Replied,
            RegisterAction::Reply(RegisterReply::HashingFailed),
        ),
        (RegisterState::Connecting, RegisterEvent::Connected { ok: true }) => (
            RegisterState::LookingUp,
            RegisterAction::LookUpUser,
        ),
        (RegisterState::Connecting, RegisterEvent::Connected { ok: false }) => (
            RegisterState::Replied,
            RegisterAction::Reply(RegisterReply::DatabaseUnavailable),
        ),
        (RegisterState::LookingUp, RegisterEvent::NameTaken) => (
            RegisterState::Replied,
            RegisterAction::Reply(RegisterReply::UserExists),
        ),
        (RegisterState::LookingUp, RegisterEvent::NameFree) => (
            RegisterState::Inserting,
            RegisterAction::InsertUser,
        ),
        (RegisterState::LookingUp, RegisterEvent::LookupFailed) => (
            RegisterState::Replied,
            RegisterAction::Reply(RegisterReply::ServerError),
        ),
        (RegisterState::Inserting, RegisterEvent::Inserted { ok: true }) => (
            RegisterState::Replied,
            RegisterAction::Reply(RegisterReply::Created),
        ),
        (RegisterState::Inserting, RegisterEvent::Inserted { ok: false }) => (
            RegisterState::Replied,
            RegisterAction::Reply(RegisterReply::ServerError),
        ),
        _ => (state, RegisterAction::Ignore),
    }
}

/// Takes one step of a registration.
pub fn register_step(state: RegisterState, event: RegisterEvent) -> (next: (
    RegisterState,
    RegisterAction,
))
    ensures
        next == register_step_spec(state, event),
{
    match (state, event) {
        (RegisterState::Hashing, RegisterEvent::Hashed { ok }) => {
            if ok {
                (RegisterState::Connecting, RegisterAction::Connect)
            } else {
                (RegisterState::Replied, RegisterAction::Reply(RegisterReply::HashingFailed))
            }
        },
        (RegisterState::Connecting, RegisterEvent::Connected { ok }) => {
            if ok {
                (RegisterState::LookingUp, RegisterAction::LookUpUser)
            } else {
                (RegisterState::Replied, RegisterAction::Reply(RegisterReply::DatabaseUnavailable))
            }
        },
        (RegisterState::LookingUp, RegisterEvent::NameTaken) => (
            RegisterState::Replied,
            RegisterAction::Reply(RegisterReply::UserExists),
        ),
        (RegisterState::LookingUp, RegisterEvent::NameFree) => (
            RegisterState::Inserting,
            RegisterAction::InsertUser,
        ),
        (RegisterState::LookingUp, RegisterEvent::LookupFailed) => (
            RegisterState::Replied,
            RegisterAction::Reply(RegisterReply::ServerError),
        ),
        (RegisterState::Inserting, RegisterEvent::Inserted { ok }) => {
            if ok {
                (RegisterState::Replied, RegisterAction::Reply(RegisterReply::Created))
            } else {
                (RegisterState::Replied, RegisterAction::Reply(RegisterReply::ServerError))
            }
        },
        _ => (state, RegisterAction::Ignore),
    }
}

/// Once a registration has been answered, nothing more is done for it.
pub proof fn law_register_answers_once(event: RegisterEvent)
    ensures
        register_step_spec(RegisterState::Replied, event) == (
            RegisterState::Replied,
            RegisterAction::Ignore,
        ),
{
}

/// A user is created only at the end of a handling in which nothing failed
/// and the name was found free.
pub proof fn law_register_creates_after_search(state: RegisterState, event: RegisterEvent)
    ensures
        register_step_spec(state, event).1 == RegisterAction::Reply(RegisterReply::Created) ==> state
            == RegisterState::Inserting && event == (RegisterEvent::Inserted { ok: true }),
        register_step_spec(state, event).1 == RegisterAction::InsertUser ==> state
            == RegisterState::LookingUp && event == RegisterEvent::NameFree,
{
}

/// How a request for the user's own data is answered.
#[derive(Debug)]
pub enum UserDataReply {
    /// The database could not be connected to.
    DatabaseUnavailable,
    /// The user's data, without the password hash.
    Profile(User),
    /// No such user is stored.
    UserNotFound,
    /// The database failed.
    ServerError,
}

impl UserDataReply {
    /// The status of the answer.
    pub open spec fn status_spec(self) -> u16 {
        match self {
            UserDataReply::Profile(_) => STATUS_OK,
            _ => STATUS_INTERNAL_SERVER_ERROR,
        }
    }

    /// The status of the answer.
    pub fn status(&self) -> (status: u16)
        ensures
            status == self.status_spec(),
    {
        match self {
            UserDataReply::Profile(_) => STATUS_OK,
            _ => STATUS_INTERNAL_SERVER_ERROR,
        }
    }
}

/// The answer to a request for the user's own data, once the database has
/// been searched: the stored user is shown with the password hash blanked.
pub fn user_data_reply(lookup: UserLookup) -> (reply: UserDataReply)
    ensures
        match lookup {
            UserLookup::Found(user) => {
                &&& reply matches UserDataReply::Profile(shown)
                &&& shown.id == user.id
                &&& shown.name == user.name
                &&& shown.nickname == user.nickname
                &&& shown.profile_pic_path == user.profile_pic_path
                &&& shown.password_hash@ == Seq::<char>::empty()
            },
            UserLookup::Missing => reply is UserNotFound,
            UserLookup::Failed => reply is ServerError,
        },
{
    match lookup {
        UserLookup::Found(user) => UserDataReply::Profile(user.without_password_hash()),
        UserLookup::Missing => UserDataReply::UserNotFound,
        UserLookup::Failed => UserDataReply::ServerError,
    }
}

/// The kind of token that a login issues.
#[derive(Debug, Clone, Copy, PartialEq, Eq, Structural)]
pub enum TokenKind {
    /// A token that gives access for a short time.
    Access,
    /// A token by which a new access token is had.
    Refresh,
}

impl TokenKind {
    /// The kind as the claims of a token name it.
    pub fn name(&self) -> (name: &'static str)
        ensures
            name@ == (match *self {
                TokenKind::Access => "access"@,
                TokenKind::Refresh => "refresh"@,
            }),
    {
        match self {
            TokenKind::Access => "access",
            TokenKind::Refresh => "refresh",
        }
    }
}

/// Where the handling of a login stands.
#[derive(Debug)]
pub enum LoginState {
    /// The database is being connected to.
    Connecting,
    /// The user is being searched.
    LookingUp,
    /// The access token is being issued.
    IssuingAccess,
    /// The refresh token is being issued; the access token is at hand.
    IssuingRefresh { access_token: String },
    /// The request has been answered.
    Replied,
}

/// What came back while a login was handled.
#[derive(Debug)]
pub enum LoginEvent {
    /// The database was connected to, or could not be.
    Connected { ok: bool },
    /// The search for the user ended.
    LookedUp(UserLookup),
    /// A token was issued.
    TokenIssued(String),
    /// A token could not be issued.
    TokenFailed,
}

/// How a login is answered.
#[derive(Debug)]
pub enum LoginReply {
    /// The plain page that says "logged in". It answers every login that
    /// came to nothing: no database, no such user, a wrong password.
    LoggedIn,
    /// The two tokens of a user whose password was right.
    Tokens { access_token: String, refresh_token: String },
    /// A token could not be issued.
    TokenError,
}

/// What is to be done next for a login.
#[derive(Debug)]
pub enum LoginAction {
    /// Search for the user.
    LookUpUser,
    /// Issue a token of this kind for the user.
    IssueToken(TokenKind),
    /// Answer the request.
    Reply(LoginReply),
    /// Nothing: the event does not belong here.
    Ignore,
}

impl LoginReply {
    /// The status of the answer.
    pub open spec fn status_spec(self) -> u16 {
        match self {
            LoginReply::TokenError => STATUS_INTERNAL_SERVER_ERROR,
            _ => STATUS_OK,
        }
    }

    /// The status of the answer.
    pub fn status(&self) -> (status: u16)
        ensures
            status == self.status_spec(),
    {
        match self {
            LoginReply::TokenError => STATUS_INTERNAL_SERVER_ERROR,
            _ => STATUS_OK,
        }
    }
}

/// The step of a login: the database is connected to and the user is
/// searched; if the password is the stored user's, an access token and then
/// a refresh token are issued, and both are the answer.
pub open spec fn login_step_spec(state: LoginState, event: LoginEvent, password: Seq<char>) -> (
    LoginState,
    LoginAction,
) {
    match (state, event) {
        (LoginState::Connecting, LoginEvent::Connected { ok }) => if ok {
            (LoginState::LookingUp, LoginAction::LookUpUser)
        } else {
            (LoginState::Replied, LoginAction::Reply(LoginReply::LoggedIn))
        },
        (LoginState::LookingUp, LoginEvent::LookedUp(UserLookup::Found(user))) => if password_accepted(
            password,
            user.password_hash@,
        ) {
            (LoginState::IssuingAccess, LoginAction::IssueToken(TokenKind::Access))
        } else {
            (LoginState::Replied, LoginAction::Reply(LoginReply::LoggedIn))
        },
        (LoginState::LookingUp, LoginEvent::LookedUp(_)) => (
            LoginState::Replied,
            LoginAction::Reply(LoginReply::LoggedIn),
        ),
        (LoginState::IssuingAccess, LoginEvent::TokenIssued(access_token)) => (
            LoginState::IssuingRefresh { access_token },
            LoginAction::IssueToken(TokenKind::Refresh),
        ),
        (LoginState::IssuingAccess, LoginEvent::TokenFailed) => (
            LoginState::Replied,
            LoginAction::Reply(LoginReply::TokenError),
        ),
        (LoginState::IssuingRefresh { access_token }, LoginEvent::TokenIssued(refresh_token)) => (
            LoginState::Replied,
            LoginAction::Reply(LoginReply::Tokens { access_token, refresh_token }),
        ),
        (LoginState::IssuingRefresh { access_token }, LoginEvent::TokenFailed) => (
            LoginState::Replied,
            LoginAction::Reply(LoginReply::TokenError),
        ),
        _ => (state, LoginAction::Ignore),
    }
}

/// Takes one step of a login for the given password.
pub fn login_step(state: LoginState, event: LoginEvent, password: &str) -> (next: (
    LoginState,
    LoginAction,
))
    ensures
        next == login_step_spec(state, event, password@),
{
    match (state, event) {
        (LoginState::Connecting, LoginEvent::Connected { ok }) => {
            if ok {
                (LoginState::LookingUp, LoginAction::LookUpUser)
            } else {
                (LoginState::Replied, LoginAction::Reply(LoginReply::LoggedIn))
            }
        },
        (LoginState::LookingUp, LoginEvent::LookedUp(lookup)) => {
            let password_is_correct = match &lookup {
                UserLookup::Found(user) => password_matches(password, user.password_hash.as_str()),
                _ => false,
            };
            if password_is_correct {
                (LoginState::IssuingAccess, LoginAction::IssueToken(TokenKind::Access))
            } else {
                (LoginState::Replied, LoginAction::Reply(LoginReply::LoggedIn))
            }
        },
        (LoginState::IssuingAccess, LoginEvent::TokenIssued(access_token)) => (
            LoginState::IssuingRefresh { access_token },
            LoginAction::IssueToken(TokenKind::Refresh),
        ),
        (LoginState::IssuingAccess, LoginEvent::TokenFailed) => (
            LoginState::Replied,
            LoginAction::Reply(LoginReply::TokenError),
        ),
        (LoginState::IssuingRefresh { access_token }, LoginEvent::TokenIssued(refresh_token)) => (
            LoginState::Replied,
            LoginAction::Reply(LoginReply::Tokens { access_token, refresh_token }),
        ),
        (LoginState::IssuingRefresh { .. }, LoginEvent::TokenFailed) => (
            LoginState::Replied,
            LoginAction::Reply(LoginReply::TokenError),
        ),
        (state, _) => (state, LoginAction::Ignore),
    }
}

/// Tokens are issued only for a stored user whose password was accepted.
pub proof fn law_login_issues_tokens_for_right_password(
    state: LoginState,
    event: LoginEvent,
    password: Seq<char>,
)
    ensures
        login_step_spec(state, event, password).1 == LoginAction::IssueToken(TokenKind::Access) ==> {
            &&& state is LookingUp
            &&& event matches LoginEvent::LookedUp(UserLookup::Found(user))
            &&& password_accepted(password, user.password_hash@)
        },
{
}

/// How a request for a new access token is answered.
#[derive(Debug, Clone, Copy, PartialEq, Eq, Structural)]
pub enum RefreshReply {
    /// The request carried no refresh token.
    NoRefreshToken,
    /// The new access token could not be issued.
    TokenError,
    /// The handling ended without a token to send.
    Unfinished,
}

/// Where the handling of a request for a new access token stands.
#[derive(Debug, Clone, Copy, PartialEq, Eq, Structural)]
pub enum RefreshState {
    /// The cookie with the refresh token is being read.
    ReadingCookie,
    /// The refresh token is being decoded.
    Decoding,
    /// The access token is being issued.
    Issuing,
    /// The request has been answered.
    Replied,
}

/// What came back while a request for a new access token was handled.
#[derive(Debug, Clone, Copy, PartialEq, Eq, Structural)]
pub enum RefreshEvent {
    /// The cookie was read: it is there, or it is not.
    CookieRead { present: bool },
    /// The refresh token was decoded, or could not be.
    Decoded { ok: bool },
    /// The access token was issued, or could not be.
    Issued { ok: bool },
}

/// What is to be done next for a request for a new access token.
#[derive(Debug, Clone, Copy, PartialEq, Eq, Structural)]
pub enum RefreshAction {
    /// Decode the refresh token.
    DecodeToken,
    /// Issue an access token for the user of the refresh token.
    IssueAccessToken,
    /// Answer the request.
    Reply(RefreshReply),
    /// Nothing: the event does not belong here.
    Ignore,
}

impl RefreshReply {
    /// The status of the answer.
    pub open spec fn status_spec(self) -> u16 {
        match self {
            RefreshReply::NoRefreshToken => STATUS_UNAUTHORIZED,
            _ => STATUS_INTERNAL_SERVER_ERROR,
        }
    }

    /// The status of the answer.
    pub fn status(&self) -> (status: u16)
        ensures
            status == self.status_spec(),
    {
        match self {
            RefreshReply::NoRefreshToken => STATUS_UNAUTHORIZED,
            _ => STATUS_INTERNAL_SERVER_ERROR,
        }
    }
}

/// The step of a request for a new access token: without the cookie the
/// request is unauthorized; with it the token is decoded and an access token
/// is issued for its user. The handling does not send the new token yet: it
/// ends as unfinished also where the token was issued.
pub open spec fn refresh_step_spec(state: RefreshState, event: RefreshEvent) -> (
    RefreshState,
    RefreshAction,
) {
    match (state, event) {
        (RefreshState::ReadingCookie, RefreshEvent::CookieRead { present: true }) => (
            RefreshState::Decoding,
            RefreshAction::DecodeToken,
        ),
        (RefreshState::ReadingCookie, RefreshEvent::CookieRead { present: false }) => (
            RefreshState::Replied,
            RefreshAction::Reply(RefreshReply::NoRefreshToken),
        ),
        (RefreshState::Decoding, RefreshEvent::Decoded { ok: true }) => (
            RefreshState::Issuing,
            RefreshAction::IssueAccessToken,
        ),
        (RefreshState::Decoding, RefreshEvent::Decoded { ok: false }) => (
            RefreshState::Replied,
            RefreshAction::Reply(RefreshReply::Unfinished),
        ),
        (RefreshState::Issuing, RefreshEvent::Issued { ok: true }) => (
            RefreshState::Replied,
            RefreshAction::Reply(RefreshReply::Unfinished),
        ),
        (RefreshState::Issuing, RefreshEvent::Issued { ok: false }) => (
            RefreshState::Replied,
            RefreshAction::Reply(RefreshReply::TokenError),
        ),
        _ => (state, RefreshAction::Ignore),
    }
}

/// Takes one step of a request for a new access token.
pub fn refresh_step(state: RefreshState, event: RefreshEvent) -> (next: (
    RefreshState,
    RefreshAction,
))
    ensures
        next == refresh_step_spec(state, event),
{
    match (state, event) {
        (RefreshState::ReadingCookie, RefreshEvent::CookieRead { present }) => {
            if present {
                (RefreshState::Decoding, RefreshAction::DecodeToken)
            } else {
                (RefreshState::Replied, RefreshAction::Reply(RefreshReply::NoRefreshToken))
            }
        },
        (RefreshState::Decoding, RefreshEvent::Decoded { ok }) => {
            if ok {
                (RefreshState::Issuing, RefreshAction::IssueAccessToken)
            } else {
                (RefreshState::Replied, RefreshAction::Reply(RefreshReply::Unfinished))
            }
        },
        (RefreshState::Issuing, RefreshEvent::Issued { ok }) => {
            if ok {
                (RefreshState::Replied, RefreshAction::Reply(RefreshReply::Unfinished))
            } else {
                (RefreshState::Replied, RefreshAction::Reply(RefreshReply::TokenError))
            }
        },
        _ => (state, RefreshAction::Ignore),
    }
}

} // verus!
