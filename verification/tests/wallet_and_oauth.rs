use colang::oauth::{
    authorize_extras, endpoint_url, env_key, is_supported_platform, linkedin_me, me_request,
    uses_request_body_auth, MeRequest, OauthMe,
};
use colang::wallet::{
    coupon_url, due_for_reminder, notice_delay_secs, notice_kind, plan_coupon_notices,
    supervise_interval_secs, NewCard, NoticeRecipient,
};

fn recipient(user_id: i64, in_kernel: bool, is_disabled: bool, email: Option<&str>) -> NoticeRecipient {
    NoticeRecipient { user_id, in_kernel, is_disabled, master_email: email.map(|e| e.to_string()) }
}

#[test]
fn reminder_kinds_and_urls() {
    assert_eq!(notice_kind(7, 99), "obtained_coupon:7:expire_notify:99");
    assert_eq!(coupon_url("https://console.example", 12), "https://console.example/realms/12/wallet");
}

#[test]
fn reminders_go_to_enabled_roots_with_an_address() {
    let rs = vec![
        recipient(1, false, false, Some("one@example.com")),
        recipient(2, true, false, Some("two@example.com")),
        recipient(3, false, true, Some("three@example.com")),
        recipient(4, false, false, None),
    ];
    let plan = plan_coupon_notices(7, 12, &rs, &vec![], "https://manage", "https://console");
    assert_eq!(plan.len(), 2);
    assert_eq!(plan[0].kind, "obtained_coupon:7:expire_notify:1");
    assert_eq!(plan[0].recipient_email, "one@example.com");
    assert_eq!(plan[0].front_url, "https://console");
    assert_eq!(plan[0].coupon_url, "https://console/realms/12/wallet");
    assert_eq!(plan[1].recipient_id, 2);
    assert_eq!(plan[1].front_url, "https://manage");
    assert_eq!(plan[1].coupon_url, "https://manage/realms/12/wallet");
}

#[test]
fn reminders_are_not_repeated() {
    let rs = vec![recipient(1, false, false, Some("a@x")), recipient(2, false, false, Some("b@x"))];
    let first = plan_coupon_notices(7, 12, &rs, &vec![], "m", "c");
    assert_eq!(first.len(), 2);
    let sent: Vec<String> = first.iter().map(|n| n.kind.clone()).collect();
    let again = plan_coupon_notices(7, 12, &rs, &sent, "m", "c");
    assert!(again.is_empty());
    let partly = plan_coupon_notices(7, 12, &rs, &vec!["obtained_coupon:7:expire_notify:2".to_string()], "m", "c");
    assert_eq!(partly.len(), 1);
    assert_eq!(partly[0].recipient_id, 1);
}

#[test]
fn reminder_window_is_the_fifteenth_day() {
    let now = 1_000_000;
    let day = 86_400;
    assert!(due_for_reminder(false, Some(now + 14 * day + 1), now));
    assert!(due_for_reminder(false, Some(now + 15 * day - 1), now));
    assert!(!due_for_reminder(false, Some(now + 14 * day), now));
    assert!(!due_for_reminder(false, Some(now + 15 * day), now));
    assert!(!due_for_reminder(true, Some(now + 14 * day + 10), now));
    assert!(!due_for_reminder(false, None, now));
}

#[test]
fn supervision_timing_by_stage() {
    assert_eq!(supervise_interval_secs(false), 60);
    assert_eq!(supervise_interval_secs(true), 8 * 3600);
    assert_eq!(notice_delay_secs(false), 60);
    assert_eq!(notice_delay_secs(true), 3600);
}

#[test]
fn new_card_holds_its_fields() {
    let c = NewCard { realm_id: 3, exp_month: 12, exp_year: 2030, fingerprint: "fp", created_by: Some(9) };
    assert_eq!((c.realm_id, c.exp_month, c.exp_year, c.fingerprint, c.created_by), (3, 12, 2030, "fp", Some(9)));
}

fn me(name: Option<&str>, first: Option<&str>, last: Option<&str>, given: Option<&str>) -> OauthMe {
    OauthMe {
        id: "x".to_string(),
        name: name.map(|s| s.to_string()),
        first_name: first.map(|s| s.to_string()),
        last_name: last.map(|s| s.to_string()),
        given_name: given.map(|s| s.to_string()),
        family_name: None,
        email: None,
        phone: None,
    }
}

#[test]
fn full_name_prefers_the_given_full_name() {
    assert_eq!(me(Some("Ada Lovelace"), Some("A"), Some("L"), None).full_name(), Some("Ada Lovelace".to_string()));
    assert_eq!(me(None, Some("Ada"), Some("Lovelace"), None).full_name(), Some("Ada Lovelace".to_string()));
    assert_eq!(me(None, None, Some("Lovelace"), Some("Ada")).full_name(), Some("Ada Lovelace".to_string()));
    assert_eq!(me(None, Some("Ada"), None, None).full_name(), Some("Ada".to_string()));
    assert_eq!(me(None, None, Some("Lovelace"), None).full_name(), Some("Lovelace".to_string()));
    assert_eq!(me(None, None, None, None).full_name(), None);
    assert_eq!(me(None, Some(""), None, Some("Ada")).full_name(), None);
}

#[test]
fn platform_settings() {
    assert_eq!(env_key("google", "client_id"), "GOOGLE_CLIENT_ID");
    assert_eq!(env_key("google_drive", "me_url"), "GOOGLE_DRIVE_ME_URL");
    assert!(is_supported_platform("shopify"));
    assert!(!is_supported_platform("myspace"));
    assert_eq!(endpoint_url(Some("shop.myshopify.com"), "/admin/oauth/authorize"), "https://shop.myshopify.com/admin/oauth/authorize");
    assert_eq!(endpoint_url(None, "https://accounts.example/auth"), "https://accounts.example/auth");
    assert!(uses_request_body_auth("box"));
    assert!(uses_request_body_auth("shopify"));
    assert!(!uses_request_body_auth("google"));
}

#[test]
fn authorize_extras_by_platform() {
    let g = authorize_extras("google");
    assert_eq!(g.scopes.len(), 2);
    assert_eq!(g.scopes[1], "https://www.googleapis.com/auth/userinfo.email");
    assert!(g.params.is_empty());
    let l = authorize_extras("linkedin");
    assert_eq!(l.scopes, vec!["r_liteprofile".to_string(), "r_emailaddress".to_string()]);
    let d = authorize_extras("dropbox");
    assert_eq!(d.params, vec![("token_access_type".to_string(), "offline".to_string())]);
    let f = authorize_extras("facebook");
    assert!(f.scopes.is_empty());
    assert_eq!(f.params, vec![("access_type".to_string(), "offline".to_string())]);
}

#[test]
fn profile_requests_by_platform() {
    match me_request("facebook", "tok") {
        Some(MeRequest::Query(q)) => {
            assert_eq!(q.len(), 4);
            assert_eq!(q[0], ("fields".to_string(), "id,name,email".to_string()));
            assert_eq!(q[3], ("access_token".to_string(), "tok".to_string()));
        }
        _ => panic!("facebook reads its profile by query"),
    }
    assert_eq!(me_request("google", "t"), Some(MeRequest::Bearer));
    assert_eq!(me_request("linkedin", "t"), Some(MeRequest::BearerWithEmail));
    assert_eq!(me_request("box", "t"), None);
    let m = linkedin_me("id1".to_string(), Some("Ada".to_string()), None, "ada@example.com".to_string());
    assert_eq!(m.email.as_deref(), Some("ada@example.com"));
    assert_eq!(m.full_name(), Some("Ada".to_string()));
}
