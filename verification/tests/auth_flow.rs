use ticket_actor::auth::LoginRequest;
use ticket_actor::auth::login_decision;
use ticket_actor::auth::register_insert;
use ticket_actor::auth::session_key;
use ticket_actor::user::User;
use ticket_actor::user::UserId;

fn alice() -> User {
    User { id: UserId(1), username: "alice".to_string(), password_hash: "hash".to_string() }
}

#[test]
fn login_needs_a_user_and_a_matching_password() {
    assert!(login_decision(None, true).is_none());
    assert!(login_decision(None, false).is_none());
    assert!(login_decision(Some(alice()), false).is_none());
    let u = login_decision(Some(alice()), true).unwrap();
    assert_eq!(u.id, UserId(1));
    assert_eq!(u.username, "alice");
}

#[test]
fn the_session_key_is_the_requested_username() {
    let request = LoginRequest { username: "alice".to_string(), password: "pw".to_string() };
    assert_eq!(session_key(&request), "alice");
}

#[test]
fn registration_builds_the_insert_operation() {
    let op = register_insert("bob".to_string(), "argon-hash".to_string());
    assert_eq!(op.username, "bob");
    assert_eq!(op.password, "argon-hash");
    assert_eq!(op.query(), "INSERT INTO users (username, password_hash) VALUES (?1, ?2)");
}
