use openusb::auth::{
    admin_check, after_validation, auth_step, authenticated_user, default_history_limit,
    expiry_in_range, login_outcome, update_is_empty, user_change_answer, without_secret, AuthStep,
    AuthUser, Claims, LoginOutcome, UpdateUser, User,
};
use openusb::device::Timestamp;
use openusb::protocol::ServerEvent;

fn user(enabled: bool) -> User {
    User {
        id: 1,
        username: "alice".into(),
        password_hash: "$argon2$...".into(),
        role: "user".into(),
        enabled,
        created_at: "2024-01-01".into(),
    }
}

#[test]
fn auth_guard_steps() {
    match auth_step("open", None) {
        AuthStep::Allow(u) => assert_eq!((u.username.as_str(), u.role.as_str()), ("anonymous", "admin")),
        _ => panic!("open mode lets everyone in"),
    }
    match auth_step("password", Some("Bearer abc.def")) {
        AuthStep::Validate(t) => assert_eq!(t, "abc.def"),
        _ => panic!("expected a token"),
    }
    for header in [None, Some("Basic xyz"), Some("bearer abc")] {
        match auth_step("password", header) {
            AuthStep::Reject(e) => {
                assert_eq!(e.status, 401);
                assert_eq!(e.message, "Missing authentication token");
            }
            _ => panic!("expected rejection"),
        }
    }
    let claims = Claims { sub: "bob".into(), role: "viewer".into(), exp: 2, iat: 1 };
    let u = after_validation(Some(claims)).unwrap();
    assert_eq!((u.username.as_str(), u.role.as_str()), ("bob", "viewer"));
    let e = after_validation(None).unwrap_err();
    assert_eq!((e.status, e.message.as_str()), (401, "Invalid or expired token"));
}

#[test]
fn admin_guard() {
    let admin = AuthUser { username: "a".into(), role: "admin".into() };
    let user = AuthUser { username: "u".into(), role: "user".into() };
    assert!(admin_check(Some(&admin)).is_ok());
    let e = admin_check(Some(&user)).unwrap_err();
    assert_eq!((e.status, e.message.as_str()), (403, "Admin access required"));
    let e = admin_check(None).unwrap_err();
    assert_eq!((e.status, e.message.as_str()), (401, "Not authenticated"));
}

#[test]
fn login_decisions() {
    match login_outcome(true, "guest", None) {
        LoginOutcome::Issue { username, role } => assert_eq!((username.as_str(), role.as_str()), ("guest", "admin")),
        _ => panic!(),
    }
    let u = user(true);
    match login_outcome(false, "alice", Some(&u)) {
        LoginOutcome::Issue { username, role } => assert_eq!((username.as_str(), role.as_str()), ("alice", "user")),
        _ => panic!(),
    }
    match login_outcome(false, "mallory", None) {
        LoginOutcome::Refuse { error, event } => {
            assert_eq!((error.status, error.message.as_str()), (401, "Invalid username or password"));
            match event {
                ServerEvent::AuthFailed { client_ip, reason } => {
                    assert_eq!(client_ip, "unknown");
                    assert_eq!(reason, "Invalid credentials for mallory");
                }
                _ => panic!(),
            }
        }
        _ => panic!(),
    }
    assert!(authenticated_user(Some(user(true)), true).is_some());
    assert!(authenticated_user(Some(user(false)), true).is_none());
    assert!(authenticated_user(Some(user(true)), false).is_none());
    assert!(authenticated_user(None, true).is_none());
}

#[test]
fn token_claims_and_expiry_range() {
    let now = Timestamp { secs: 1_700_000_000, nanos: 0 };
    assert!(expiry_in_range(now, 24));
    let c = Claims::for_user("alice", "admin", now, 24);
    assert_eq!((c.sub.as_str(), c.role.as_str(), c.iat, c.exp), ("alice", "admin", 1_700_000_000, 1_700_086_400));
    assert!(!expiry_in_range(now, i64::MAX));
    assert!(!expiry_in_range(now, 3_000_000_000));
    assert!(expiry_in_range(now, -24));
}

#[test]
fn user_management_answers() {
    assert!(update_is_empty(&UpdateUser { password: None, role: None, enabled: None }));
    assert!(!update_is_empty(&UpdateUser { password: None, role: None, enabled: Some(false) }));
    assert!(user_change_answer(true).is_ok());
    let e = user_change_answer(false).unwrap_err();
    assert_eq!((e.status, e.message.as_str()), (404, "User not found"));
    let u = without_secret(user(true));
    assert_eq!(u.password_hash, "");
    assert_eq!(u.username, "alice");
    assert_eq!(default_history_limit(), 100);
}
