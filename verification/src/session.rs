//! Sessions: what a successful login gives an account.

use vstd::prelude::*;

verus! {

/// The credentials of one authenticated account: the cookies and the
/// anti-forgery token that its requests carry.
#[derive(Clone, Debug)]
pub struct Session {
    pub cookies: Vec<String>,
    pub modhash: String,
    pub username: String,
}

/// Why a login gave no session.
#[derive(Clone, Copy, Debug, PartialEq, Eq)]
pub enum AuthError {
    /// The response carries no cookie.
    MissingCookies,
    /// No response arrived.
    Transport,
    /// The body of the response could not be decoded.
    Decode,
}

/// The outcome of one round trip of a login request, as the transport
/// reports it.
#[derive(Clone, Debug)]
pub enum LoginReply {
    /// No response arrived.
    NoResponse,
    /// A response arrived: the anti-forgery token of its body where the body
    /// could be decoded, and the cookies that its headers set.
    Response { modhash: Option<String>, cookies: Vec<String> },
}

/// What a login reply amounts to for the account `username`.
pub open spec fn session_of(username: Seq<char>, reply: LoginReply) -> Result<
    (Seq<Seq<char>>, Seq<char>, Seq<char>),
    AuthError,
> {
    match reply {
        LoginReply::NoResponse => Err(AuthError::Transport),
        LoginReply::Response { modhash: None, cookies } => Err(AuthError::Decode),
        LoginReply::Response { modhash: Some(token), cookies } => if cookies@.len() == 0 {
            Err(AuthError::MissingCookies)
        } else {
            Ok((cookies.deep_view(), token@, username))
        },
    }
}

impl Session {
    /// The session as mathematical values: cookies, token, user name.
    pub open spec fn model(&self) -> (Seq<Seq<char>>, Seq<char>, Seq<char>) {
        (self.cookies.deep_view(), self.modhash@, self.username@)
    }
}

/// Builds the session from the reply to a login request. A missing response
/// is a transport error, an undecodable body a decode error, and a decoded
/// body without any cookie beside it a missing-cookies error.
pub fn open_session(username: &str, reply: LoginReply) -> (r: Result<Session, AuthError>)
    ensures
        match session_of(username@, reply) {
            Ok(model) => r matches Ok(session) && session.model() == model,
            Err(why) => r == Err::<Session, AuthError>(why),
        },
{
    match reply {
        LoginReply::NoResponse => Err(AuthError::Transport),
        LoginReply::Response { modhash, cookies } => {
            match modhash {
                None => Err(AuthError::Decode),
                Some(token) => {
                    if cookies.len() == 0 {
                        Err(AuthError::MissingCookies)
                    } else {
                        Ok(Session { cookies, modhash: token, username: username.to_owned() })
                    }
                },
            }
        },
    }
}

} // verus!
