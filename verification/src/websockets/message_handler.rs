//! What is answered to a message that a client sends over its socket.

use crate::text::same_text;
use vstd::prelude::*;

verus! {

/// A message by which a client logs in.
#[derive(Debug, Clone, PartialEq, Eq)]
pub struct LoginMessage {
    /// The kind of message; a login has the kind `login`.
    pub msg_type: String,
    pub username: String,
    pub password: String,
}

/// How a message is answered.
#[derive(Debug, Clone, Copy, PartialEq, Eq, Structural)]
pub enum MessageReply {
    /// The login is accepted.
    Accepted,
    /// Name or password is wrong.
    WrongCredentials,
    /// The message is no login message.
    WrongFormat,
}

/// The answer to a message: a message that could not be read as a login
/// message, or that is of another kind, has the wrong format; a login is
/// accepted for the one name and password that are known.
pub open spec fn match_message_spec(message: Option<LoginMessage>) -> MessageReply {
    match message {
        Some(login) => if login.msg_type@ != "login"@ {
            MessageReply::WrongFormat
        } else if login.username@ == "admin"@ && login.password@ == "1234"@ {
            MessageReply::Accepted
        } else {
            MessageReply::WrongCredentials
        },
        None => MessageReply::WrongFormat,
    }
}

/// Decides the answer to a message, given as it was read: `None` stands for
/// a text that is no login message.
pub fn match_message(message: Option<&LoginMessage>) -> (reply: MessageReply)
    ensures
        reply == match_message_spec(
            match message {
                Some(login) => Some(*login),
                None => None,
            },
        ),
{
    match message {
        Some(login) => {
            if !same_text(login.msg_type.as_str(), "login") {
                MessageReply::WrongFormat
            } else if same_text(login.username.as_str(), "admin") && same_text(
                login.password.as_str(),
                "1234",
            ) {
                MessageReply::Accepted
            } else {
                MessageReply::WrongCredentials
            }
        },
        None => MessageReply::WrongFormat,
    }
}

impl MessageReply {
    /// The text of the answer, where it is plain text: an accepted login is
    /// answered with `ok`. The other answers are structured and have no
    /// plain text.
    pub fn plain_text(&self) -> (text: Option<&'static str>)
        ensures
            text is Some <==> *self == MessageReply::Accepted,
            text matches Some(word) ==> word@ == "ok"@,
    {
        match self {
            MessageReply::Accepted => Some("ok"),
            _ => None,
        }
    }
}

} // verus!
