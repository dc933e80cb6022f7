use loop_core::errors::{LoopError, UserError};
use loop_core::models;
use loop_core::rand_string;
use loop_core::users::{login, User};

fn stored_user() -> models::User {
    models::User {
        id: 11,
        username: "ada".to_string(),
        localuname: "ada".to_string(),
        password: "stored-hash".to_string(),
        email: "ada@example.org".to_string(),
        credits: 30,
        display_name: None,
        root_id: Some(5),
        featured_id: None,
        expo_tokens: vec!["one".to_string()],
        latest_update_seen_id: None,
    }
}

#[test]
fn user_from_stored_row() {
    let user = User::from(stored_user());
    assert_eq!(user.id(), 11);
    assert_eq!(user.username(), "ada");
}

#[test]
fn credits_visible_only_to_self() {
    let user = User { id: 11, username: "ada".to_string() };
    assert_eq!(user.credits(11, 30), Some(30));
    assert_eq!(user.credits(12, 30), None);
}

#[test]
fn appended_expo_tokens_keeps_order() {
    let stored = stored_user();
    let tokens = stored.appended_expo_tokens("two".to_string());
    assert_eq!(tokens, vec!["one".to_string(), "two".to_string()]);
    assert_eq!(stored.expo_tokens, vec!["one".to_string()]);
}

#[test]
fn login_unknown_name_fails() {
    let err = login("ada".to_string(), None, false).unwrap_err();
    match err {
        LoopError::UserError(UserError::NameNonexist(name)) => assert_eq!(name, "ada"),
        _ => panic!("expected the name-not-found error"),
    }
    assert_eq!(
        login("ada".to_string(), None, true).unwrap_err().message(),
        "[une] A user with the username 'ada' was not found."
    );
}

#[test]
fn login_wrong_password_fails() {
    let err = login("ada".to_string(), Some(11), false).unwrap_err();
    assert!(matches!(
        err,
        LoopError::UserError(UserError::PasswordMatch)
    ));
}

#[test]
fn login_success_yields_user_id() {
    assert_eq!(login("ada".to_string(), Some(11), true).unwrap(), 11);
}

#[test]
fn rand_string_length_and_charset() {
    let s = rand_string(24);
    assert_eq!(s.len(), 24);
    assert!(s.chars().all(|c| c.is_ascii_alphanumeric()));
    assert_eq!(rand_string(0), "");
    let a = rand_string(40);
    let b = rand_string(40);
    // Two long draws agreeing would be astronomically unlikely.
    assert_ne!(a, b);
}
