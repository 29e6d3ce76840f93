use ios_bridge::auth::{
    AUTH_FAILURE_PREFIX, AUTH_INVALID_FORMAT, AUTH_INVALID_INPUT, AUTH_SUCCESS,
};
use ios_bridge::{auth_message, rad_auth, rad_auth_reply, Alias, AuthOptions, BridgeError};

#[test]
fn rad_auth_refuses_null_as_invalid_input() {
    assert_eq!(rad_auth(None), Err(BridgeError::InvalidInput));
}

#[test]
fn rad_auth_refuses_the_empty_alias_as_invalid_format() {
    assert_eq!(rad_auth(Some(b"\0")), Err(BridgeError::InvalidFormat));
    assert_eq!(rad_auth(Some(b"")), Err(BridgeError::InvalidFormat));
    let reply = rad_auth_reply(&Err(BridgeError::InvalidFormat));
    assert_eq!(reply.as_bytes(), b"Invalid alias format");
}

#[test]
fn rad_auth_refuses_an_alias_with_white_space() {
    assert_eq!(rad_auth(Some(b"al ice\0")), Err(BridgeError::InvalidFormat));
}

#[test]
fn rad_auth_refuses_an_alias_that_is_too_long() {
    let mut buffer = vec![0x61; 33];
    buffer.push(0);
    assert_eq!(rad_auth(Some(&buffer)), Err(BridgeError::InvalidFormat));
}

#[test]
fn rad_auth_passes_a_valid_alias_on() {
    let options = rad_auth(Some(b"alice\0")).unwrap();
    assert_eq!(
        options,
        AuthOptions { alias: Some(Alias::parse("alice").unwrap()), stdin: false }
    );
}

#[test]
fn rad_auth_is_never_interactive() {
    assert!(!rad_auth(Some(b"bob\0")).unwrap().stdin);
}

#[test]
fn rad_auth_reads_the_alias_before_the_terminator() {
    let options = rad_auth(Some(b"alice\0 and more\0")).unwrap();
    assert_eq!(options.alias.unwrap().as_str(), "alice");
}

#[test]
fn rad_auth_decides_the_same_alias_alike() {
    let first = rad_auth(Some(b"alice\0"));
    let second = rad_auth(Some(b"alice\0"));
    assert!(first.is_ok());
    assert_eq!(first, second);
}

#[test]
fn rad_auth_reads_invalid_utf8_with_replacements() {
    let options = rad_auth(Some(b"al\xffce\0")).unwrap();
    assert_eq!(options.alias.unwrap().as_str(), "al\u{fffd}ce");
}

#[test]
fn auth_message_of_success() {
    assert_eq!(auth_message(&Ok(())), "Rad auth successful");
    assert_eq!(AUTH_SUCCESS, "Rad auth successful");
}

#[test]
fn auth_message_of_invalid_input() {
    assert_eq!(auth_message(&Err(BridgeError::InvalidInput)), "Invalid input");
    assert_eq!(AUTH_INVALID_INPUT, "Invalid input");
}

#[test]
fn auth_message_of_invalid_format() {
    assert_eq!(auth_message(&Err(BridgeError::InvalidFormat)), "Invalid alias format");
    assert_eq!(AUTH_INVALID_FORMAT, "Invalid alias format");
}

#[test]
fn auth_message_of_failure_holds_the_collaborators_words() {
    let outcome = Err(BridgeError::CollaboratorFailure(String::from("profile not found")));
    assert_eq!(auth_message(&outcome), "Rad auth failed: profile not found");
    assert_eq!(AUTH_FAILURE_PREFIX, "Rad auth failed: ");
}

#[test]
fn auth_message_of_failure_without_words() {
    let outcome = Err(BridgeError::CollaboratorFailure(String::new()));
    assert_eq!(auth_message(&outcome), "Rad auth failed: ");
}

#[test]
fn auth_messages_tell_the_outcomes_apart() {
    let outcomes = vec![
        Ok(()),
        Err(BridgeError::InvalidInput),
        Err(BridgeError::InvalidFormat),
        Err(BridgeError::CollaboratorFailure(String::from("successful"))),
        Err(BridgeError::CollaboratorFailure(String::new())),
    ];
    for (i, first) in outcomes.iter().enumerate() {
        for (j, second) in outcomes.iter().enumerate() {
            assert_eq!(auth_message(first) == auth_message(second), i == j);
        }
    }
}

#[test]
fn rad_auth_reply_of_success() {
    let reply = rad_auth_reply(&Ok(()));
    assert_eq!(reply.as_bytes_with_nul(), b"Rad auth successful\0");
}

#[test]
fn rad_auth_reply_of_invalid_input() {
    let reply = rad_auth_reply(&Err(BridgeError::InvalidInput));
    assert_eq!(reply.as_bytes_with_nul(), b"Invalid input\0");
}

#[test]
fn rad_auth_reply_of_failure() {
    let outcome = Err(BridgeError::CollaboratorFailure(String::from("cl\u{e9} refus\u{e9}e")));
    let reply = rad_auth_reply(&outcome);
    assert_eq!(reply.as_bytes(), "Rad auth failed: cl\u{e9} refus\u{e9}e".as_bytes());
}

#[test]
fn rad_auth_reply_of_failure_with_nul_ends_before_the_nul() {
    let outcome = Err(BridgeError::CollaboratorFailure(String::from("key\0store")));
    let reply = rad_auth_reply(&outcome);
    assert_eq!(reply.as_bytes_with_nul(), b"Rad auth failed: key\0");
}

#[test]
fn rad_auth_reply_of_failure_that_starts_with_nul_is_the_prefix() {
    let outcome = Err(BridgeError::CollaboratorFailure(String::from("\0")));
    let reply = rad_auth_reply(&outcome);
    assert_eq!(reply.as_bytes(), b"Rad auth failed: ");
}

#[test]
fn rad_auth_reply_gives_alike_outcomes_the_same_text() {
    let first = rad_auth_reply(&Err(BridgeError::CollaboratorFailure(String::from("a\0b"))));
    let second = rad_auth_reply(&Err(BridgeError::CollaboratorFailure(String::from("a\0b"))));
    assert_eq!(first, second);
    let first = rad_auth_reply(&Ok(()));
    let second = rad_auth_reply(&Ok(()));
    assert_eq!(first.as_bytes_with_nul(), second.as_bytes_with_nul());
}

#[test]
fn rad_auth_then_reply_for_a_refused_request() {
    let outcome = rad_auth(None).map(|_| ());
    assert_eq!(rad_auth_reply(&outcome).as_bytes(), b"Invalid input");
    let outcome = rad_auth(Some(b"not an alias\0")).map(|_| ());
    assert_eq!(rad_auth_reply(&outcome).as_bytes(), b"Invalid alias format");
}
