use colang::models::{NewAccessToken, NewRefreshToken, User};

fn account(deactivated_at: Option<i64>) -> User {
    User {
        id: 7,
        name: "ada".to_string(),
        is_admin: false,
        is_guest: false,
        approved_at: None,
        approved_by: None,
        deactivated_at,
        deactivated_by: None,
        locked_at: None,
        locked_by: None,
        created_at: 1_700_000_000_000_000,
    }
}

#[test]
fn deactivation_is_read_from_its_instant() {
    assert!(!account(None).is_deactivated());
    assert!(account(Some(1_700_000_500_000_000)).is_deactivated());
}

#[test]
fn new_access_token_starts_unused() {
    let t = NewAccessToken::new(7, 3, "tok".to_string(), Some(11));
    assert_eq!(t.user_id, 7);
    assert_eq!(t.device_id, 3);
    assert_eq!(t.token, "tok");
    assert_eq!(t.refresh_token_id, Some(11));
    assert_eq!(t.puppets_user_id, None);
    assert_eq!(t.last_validated, None);
    assert_eq!(t.expires_at, None);
    assert!(!t.is_used);
    // created now: after 2020-01-01
    assert!(t.created_at > 1_577_836_800_000_000);
}

#[test]
fn new_refresh_token_is_not_rotated() {
    let t = NewRefreshToken::new(7, 3, "ref".to_string(), 100, 200);
    assert_eq!(t.user_id, 7);
    assert_eq!(t.device_id, 3);
    assert_eq!(t.token, "ref");
    assert_eq!(t.next_token_id, None);
    assert_eq!(t.expires_at, 100);
    assert_eq!(t.ultimate_session_expires_at, 200);
    assert!(t.created_at > 1_577_836_800_000_000);
}
