use place_bot::config::{load_available_accounts, ConfigError, ConfigUser, ConfigUserToml};
use place_bot::session::{open_session, AuthError, LoginReply};

#[test]
fn login_reply_with_token_and_cookies_gives_a_session() {
    let reply = LoginReply::Response {
        modhash: Some(String::from("abc123")),
        cookies: vec![String::from("a=1"), String::from("b=2")],
    };
    let session = open_session("alice", reply).unwrap();
    assert_eq!(session.username, "alice");
    assert_eq!(session.modhash, "abc123");
    assert_eq!(session.cookies, vec![String::from("a=1"), String::from("b=2")]);
}

#[test]
fn login_without_response_is_a_transport_error() {
    assert_eq!(open_session("alice", LoginReply::NoResponse).err(), Some(AuthError::Transport));
}

#[test]
fn login_with_undecodable_body_is_a_decode_error() {
    let reply = LoginReply::Response { modhash: None, cookies: vec![String::from("a=1")] };
    assert_eq!(open_session("alice", reply).err(), Some(AuthError::Decode));
    let bare = LoginReply::Response { modhash: None, cookies: Vec::new() };
    assert_eq!(open_session("alice", bare).err(), Some(AuthError::Decode));
}

#[test]
fn login_without_cookies_is_a_missing_cookies_error() {
    let reply = LoginReply::Response { modhash: Some(String::from("abc123")), cookies: Vec::new() };
    assert_eq!(open_session("alice", reply).err(), Some(AuthError::MissingCookies));
}

#[test]
fn accounts_come_out_in_file_order() {
    let content = ConfigUserToml {
        users: vec![
            ConfigUser { username: String::from("alice"), password: String::from("pw1") },
            ConfigUser { username: String::from("bob"), password: String::from("pw2") },
        ],
    };
    let users = load_available_accounts(Ok(content)).unwrap();
    assert_eq!(users.len(), 2);
    assert_eq!(users[0].username, "alice");
    assert_eq!(users[0].password, "pw1");
    assert_eq!(users[1].username, "bob");
    assert_eq!(users[1].password, "pw2");
}

#[test]
fn accounts_loading_failure_is_passed_on() {
    assert_eq!(
        load_available_accounts(Err(ConfigError::Unreadable)).err(),
        Some(ConfigError::Unreadable)
    );
    assert_eq!(
        load_available_accounts(Err(ConfigError::Malformed)).err(),
        Some(ConfigError::Malformed)
    );
}

#[test]
fn empty_accounts_file_gives_no_account() {
    let users = load_available_accounts(Ok(ConfigUserToml { users: Vec::new() })).unwrap();
    assert!(users.is_empty());
}
