use moat::db::user::{session_user_id, UserAuth, UserError};
use moat::entity::user;
use moat::models::AuthSessionInfo;

fn bob() -> user::Model {
    user::Model {
        id: "00000000-0000-0000-0000-00000000000b".to_string(),
        email: "bob@example.com".to_string(),
        role: "user".to_string(),
        created_at: String::new(),
        last_authenticated: String::new(),
    }
}

#[test]
fn signed_out_session_is_empty() {
    let s = AuthSessionInfo::signed_out();
    assert_eq!(s.current_user, None);
    assert_eq!(s.authentication_id, None);
    assert!(s.auth_state.is_none());
}

#[test]
fn signed_in_session_holds_the_user() {
    let s = AuthSessionInfo::signed_in(11);
    assert_eq!(s.current_user, Some(11));
    assert_eq!(s.authentication_id, None);
    assert!(s.auth_state.is_none());
}

#[test]
fn guard_looks_up_only_the_signed_in_user() {
    assert_eq!(session_user_id(&None), None);
    assert_eq!(session_user_id(&Some(AuthSessionInfo::signed_out())), None);
    assert_eq!(
        session_user_id(&Some(AuthSessionInfo::signed_in(11))),
        Some("00000000-0000-0000-0000-00000000000b".to_string())
    );
}

#[test]
fn guard_outcome() {
    assert!(UserAuth::from_lookup(None).is_none());
    let found = UserAuth::from_lookup(Some(bob())).expect("found");
    assert_eq!(found.0, bob());
    assert_eq!(UserError::NotLoggedIn, UserError::NotLoggedIn);
}
