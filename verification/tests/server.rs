use trinity_server::auth_logic::models::User;
use trinity_server::server::create_stream_status;
use trinity_server::server::login_step;
use trinity_server::server::password_matches;
use trinity_server::server::refresh_step;
use trinity_server::server::register_step;
use trinity_server::server::stream_found_status;
use trinity_server::server::user_data_reply;
use trinity_server::server::LoginAction;
use trinity_server::server::LoginEvent;
use trinity_server::server::LoginReply;
use trinity_server::server::LoginState;
use trinity_server::server::RefreshAction;
use trinity_server::server::RefreshEvent;
use trinity_server::server::RefreshReply;
use trinity_server::server::RefreshState;
use trinity_server::server::RegisterAction;
use trinity_server::server::RegisterEvent;
use trinity_server::server::RegisterReply;
use trinity_server::server::RegisterState;
use trinity_server::server::TokenKind;
use trinity_server::server::UserDataReply;
use trinity_server::server::UserLookup;
use trinity_server::websockets::message_handler::match_message;
use trinity_server::websockets::message_handler::LoginMessage;
use trinity_server::websockets::message_handler::MessageReply;

fn stored_user(password: &str) -> User {
    User {
        id: 1,
        name: "alice".to_string(),
        nickname: "al".to_string(),
        profile_pic_path: "/a.png".to_string(),
        password_hash: bcrypt::hash(password, 4).unwrap(),
    }
}

#[test]
fn statuses_of_the_stream_routes() {
    assert_eq!(create_stream_status(true), 200);
    assert_eq!(create_stream_status(false), 400);
    assert_eq!(stream_found_status(true), 200);
    assert_eq!(stream_found_status(false), 404);
}

#[test]
fn password_is_checked_against_the_stored_hash() {
    let hash = bcrypt::hash("correct horse", 4).unwrap();
    assert!(password_matches("correct horse", &hash));
    assert!(!password_matches("wrong horse", &hash));
    assert!(!password_matches("", &hash));
    // A known hash of a known password.
    assert!(password_matches("hunter2", "$2a$04$5DCebwootqWMCp59ISrMJ.l4WvgHIVg17ZawDIrDM2IjlE64GDNQS")
        == bcrypt::verify("hunter2", "$2a$04$5DCebwootqWMCp59ISrMJ.l4WvgHIVg17ZawDIrDM2IjlE64GDNQS").unwrap());
    // What is no hash matches nothing.
    assert!(!password_matches("correct horse", "correct horse"));
    assert!(!password_matches("", ""));
    assert!(!password_matches("x", "not a hash"));
}

#[test]
fn registration_that_succeeds() {
    let (state, action) = register_step(RegisterState::Hashing, RegisterEvent::Hashed { ok: true });
    assert_eq!((state, action), (RegisterState::Connecting, RegisterAction::Connect));
    let (state, action) = register_step(state, RegisterEvent::Connected { ok: true });
    assert_eq!((state, action), (RegisterState::LookingUp, RegisterAction::LookUpUser));
    let (state, action) = register_step(state, RegisterEvent::NameFree);
    assert_eq!((state, action), (RegisterState::Inserting, RegisterAction::InsertUser));
    let (state, action) = register_step(state, RegisterEvent::Inserted { ok: true });
    assert_eq!((state, action), (RegisterState::Replied, RegisterAction::Reply(RegisterReply::Created)));
    assert_eq!(RegisterReply::Created.status(), 201);
    assert_eq!(
        register_step(state, RegisterEvent::Inserted { ok: true }),
        (RegisterState::Replied, RegisterAction::Ignore)
    );
}

#[test]
fn registration_that_fails() {
    assert_eq!(
        register_step(RegisterState::Hashing, RegisterEvent::Hashed { ok: false }),
        (RegisterState::Replied, RegisterAction::Reply(RegisterReply::HashingFailed))
    );
    assert_eq!(
        register_step(RegisterState::Connecting, RegisterEvent::Connected { ok: false }),
        (RegisterState::Replied, RegisterAction::Reply(RegisterReply::DatabaseUnavailable))
    );
    assert_eq!(
        register_step(RegisterState::LookingUp, RegisterEvent::NameTaken),
        (RegisterState::Replied, RegisterAction::Reply(RegisterReply::UserExists))
    );
    assert_eq!(
        register_step(RegisterState::LookingUp, RegisterEvent::LookupFailed),
        (RegisterState::Replied, RegisterAction::Reply(RegisterReply::ServerError))
    );
    assert_eq!(
        register_step(RegisterState::Inserting, RegisterEvent::Inserted { ok: false }),
        (RegisterState::Replied, RegisterAction::Reply(RegisterReply::ServerError))
    );
    assert_eq!(RegisterReply::HashingFailed.status(), 500);
    assert_eq!(RegisterReply::DatabaseUnavailable.status(), 500);
    assert_eq!(RegisterReply::UserExists.status(), 409);
    assert_eq!(RegisterReply::ServerError.status(), 500);
    // An event out of turn is passed over.
    assert_eq!(
        register_step(RegisterState::Hashing, RegisterEvent::NameFree),
        (RegisterState::Hashing, RegisterAction::Ignore)
    );
    assert_eq!(
        register_step(RegisterState::Connecting, RegisterEvent::Inserted { ok: true }),
        (RegisterState::Connecting, RegisterAction::Ignore)
    );
}

#[test]
fn user_data_is_shown_without_the_hash() {
    match user_data_reply(UserLookup::Found(stored_user("pw"))) {
        UserDataReply::Profile(user) => {
            assert_eq!(user.id, 1);
            assert_eq!(user.name, "alice");
            assert_eq!(user.nickname, "al");
            assert_eq!(user.profile_pic_path, "/a.png");
            assert_eq!(user.password_hash, "");
        }
        other => panic!("{:?}", other),
    }
    assert!(matches!(user_data_reply(UserLookup::Missing), UserDataReply::UserNotFound));
    assert!(matches!(user_data_reply(UserLookup::Failed), UserDataReply::ServerError));
    assert_eq!(user_data_reply(UserLookup::Found(stored_user("pw"))).status(), 200);
    assert_eq!(UserDataReply::UserNotFound.status(), 500);
    assert_eq!(UserDataReply::ServerError.status(), 500);
    assert_eq!(UserDataReply::DatabaseUnavailable.status(), 500);
}

#[test]
fn login_with_the_right_password_gets_both_tokens() {
    let (state, action) = login_step(LoginState::Connecting, LoginEvent::Connected { ok: true }, "pw12");
    assert!(matches!(state, LoginState::LookingUp));
    assert!(matches!(action, LoginAction::LookUpUser));
    let (state, action) = login_step(state, LoginEvent::LookedUp(UserLookup::Found(stored_user("pw12"))), "pw12");
    assert!(matches!(state, LoginState::IssuingAccess));
    assert!(matches!(action, LoginAction::IssueToken(TokenKind::Access)));
    let (state, action) = login_step(state, LoginEvent::TokenIssued("A".to_string()), "pw12");
    assert!(matches!(&state, LoginState::IssuingRefresh { access_token } if access_token == "A"));
    assert!(matches!(action, LoginAction::IssueToken(TokenKind::Refresh)));
    let (state, action) = login_step(state, LoginEvent::TokenIssued("R".to_string()), "pw12");
    assert!(matches!(state, LoginState::Replied));
    match action {
        LoginAction::Reply(reply) => {
            assert_eq!(reply.status(), 200);
            match reply {
                LoginReply::Tokens { access_token, refresh_token } => {
                    assert_eq!(access_token, "A");
                    assert_eq!(refresh_token, "R");
                }
                other => panic!("{:?}", other),
            }
        }
        other => panic!("{:?}", other),
    }
}

#[test]
fn login_that_comes_to_nothing_is_answered_with_the_plain_page() {
    let (state, action) = login_step(LoginState::Connecting, LoginEvent::Connected { ok: false }, "pw12");
    assert!(matches!(state, LoginState::Replied));
    assert!(matches!(action, LoginAction::Reply(LoginReply::LoggedIn)));
    for lookup in [UserLookup::Missing, UserLookup::Failed, UserLookup::Found(stored_user("other"))] {
        let (state, action) = login_step(LoginState::LookingUp, LoginEvent::LookedUp(lookup), "pw12");
        assert!(matches!(state, LoginState::Replied));
        assert!(matches!(action, LoginAction::Reply(LoginReply::LoggedIn)));
    }
    assert_eq!(LoginReply::LoggedIn.status(), 200);
}

#[test]
fn login_fails_when_a_token_cannot_be_issued() {
    let (state, action) = login_step(LoginState::IssuingAccess, LoginEvent::TokenFailed, "pw12");
    assert!(matches!(state, LoginState::Replied));
    assert!(matches!(action, LoginAction::Reply(LoginReply::TokenError)));
    let (state, action) = login_step(
        LoginState::IssuingRefresh { access_token: "A".to_string() },
        LoginEvent::TokenFailed,
        "pw12",
    );
    assert!(matches!(state, LoginState::Replied));
    assert!(matches!(action, LoginAction::Reply(LoginReply::TokenError)));
    assert_eq!(LoginReply::TokenError.status(), 500);
    let (state, action) = login_step(LoginState::Replied, LoginEvent::TokenFailed, "pw12");
    assert!(matches!(state, LoginState::Replied));
    assert!(matches!(action, LoginAction::Ignore));
    let (state, action) = login_step(LoginState::Connecting, LoginEvent::TokenIssued("x".to_string()), "pw12");
    assert!(matches!(state, LoginState::Connecting));
    assert!(matches!(action, LoginAction::Ignore));
}

#[test]
fn token_kinds_are_named_as_in_the_claims() {
    assert_eq!(TokenKind::Access.name(), "access");
    assert_eq!(TokenKind::Refresh.name(), "refresh");
}

#[test]
fn refresh_without_cookie_is_unauthorized() {
    assert_eq!(
        refresh_step(RefreshState::ReadingCookie, RefreshEvent::CookieRead { present: false }),
        (RefreshState::Replied, RefreshAction::Reply(RefreshReply::NoRefreshToken))
    );
    assert_eq!(RefreshReply::NoRefreshToken.status(), 401);
}

#[test]
fn refresh_with_cookie_runs_to_its_end() {
    let (state, action) = refresh_step(RefreshState::ReadingCookie, RefreshEvent::CookieRead { present: true });
    assert_eq!((state, action), (RefreshState::Decoding, RefreshAction::DecodeToken));
    let (state, action) = refresh_step(state, RefreshEvent::Decoded { ok: true });
    assert_eq!((state, action), (RefreshState::Issuing, RefreshAction::IssueAccessToken));
    assert_eq!(
        refresh_step(state, RefreshEvent::Issued { ok: true }),
        (RefreshState::Replied, RefreshAction::Reply(RefreshReply::Unfinished))
    );
    assert_eq!(
        refresh_step(state, RefreshEvent::Issued { ok: false }),
        (RefreshState::Replied, RefreshAction::Reply(RefreshReply::TokenError))
    );
    assert_eq!(
        refresh_step(RefreshState::Decoding, RefreshEvent::Decoded { ok: false }),
        (RefreshState::Replied, RefreshAction::Reply(RefreshReply::Unfinished))
    );
    assert_eq!(
        refresh_step(RefreshState::Replied, RefreshEvent::Decoded { ok: true }),
        (RefreshState::Replied, RefreshAction::Ignore)
    );
    assert_eq!(RefreshReply::Unfinished.status(), 500);
    assert_eq!(RefreshReply::TokenError.status(), 500);
}

fn login_message(msg_type: &str, username: &str, password: &str) -> LoginMessage {
    LoginMessage {
        msg_type: msg_type.to_string(),
        username: username.to_string(),
        password: password.to_string(),
    }
}

#[test]
fn socket_messages() {
    assert_eq!(match_message(Some(&login_message("login", "admin", "1234"))), MessageReply::Accepted);
    assert_eq!(match_message(Some(&login_message("login", "admin", "12345"))), MessageReply::WrongCredentials);
    assert_eq!(match_message(Some(&login_message("login", "Admin", "1234"))), MessageReply::WrongCredentials);
    assert_eq!(match_message(Some(&login_message("logout", "admin", "1234"))), MessageReply::WrongFormat);
    assert_eq!(match_message(Some(&login_message("", "", ""))), MessageReply::WrongFormat);
    assert_eq!(match_message(None), MessageReply::WrongFormat);
    assert_eq!(MessageReply::Accepted.plain_text(), Some("ok"));
    assert_eq!(MessageReply::WrongCredentials.plain_text(), None);
    assert_eq!(MessageReply::WrongFormat.plain_text(), None);
}
