use colang::api::{
    chat_turn, check_consume_request, check_desktop_code_request, check_login_email, check_record_type,
    check_registration, cors_headers, cors_origin, is_consumable, redeem_desktop_code, StoredDesktopCode, is_preflight, normalize_email,
    records_limit, registration_failure, simple_corrections, user_uuid_of_claims, ApiError,
    DESKTOP_CODE_TTL_SECS,
};
use colang::auth::AccessClaims;
use colang::error::{path_id, AppError, DbError, StatusInfo};

#[test]
fn registration_normalises_the_address() {
    assert_eq!(check_registration("  Ann@Example.COM ", "longenough"), Ok("ann@example.com".to_string()));
    assert_eq!(check_registration("   ", "longenough"), Err(ApiError::EmailRequired));
    assert_eq!(check_registration("a@b.c", "short"), Err(ApiError::PasswordTooShort));
    assert_eq!(check_registration("a@b.c", "12345678"), Ok("a@b.c".to_string()));
    assert_eq!(normalize_email(" X@Y "), "x@y");
    assert_eq!(check_login_email(""), Err(ApiError::EmailRequired));
    assert_eq!(check_login_email(" Me@Here "), Ok("me@here".to_string()));
}

#[test]
fn registration_conflicts_are_reported() {
    assert_eq!(
        registration_failure("duplicate key value violates unique constraint"),
        ApiError::EmailAlreadyRegistered
    );
    assert_eq!(registration_failure("DatabaseError(UniqueViolation, ..)"), ApiError::EmailAlreadyRegistered);
    assert_eq!(registration_failure("connection refused"), ApiError::FailedToCreateUser);
    assert_eq!(ApiError::EmailAlreadyRegistered.status(), 409);
    assert_eq!(ApiError::EmailAlreadyRegistered.brief(), "email already registered");
}

#[test]
fn api_error_statuses_and_briefs() {
    let cases = [
        (ApiError::InvalidJson, 400, "invalid json"),
        (ApiError::PasswordTooShort, 400, "password must be at least 8 characters"),
        (ApiError::FailedToCreateUser, 500, "failed to create user"),
        (ApiError::FailedToIssueToken, 500, "failed to issue token"),
        (ApiError::InvalidCredentials, 401, "invalid credentials"),
        (ApiError::MissingAuthorization, 401, "missing authorization"),
        (ApiError::InvalidAuthorization, 401, "invalid authorization"),
        (ApiError::InvalidToken, 401, "invalid token"),
        (ApiError::UserNotFound, 404, "user not found"),
        (ApiError::FailedToUpdateProfile, 500, "failed to update profile"),
        (ApiError::FailedToListRecords, 500, "failed to list records"),
        (ApiError::RecordTypeRequired, 400, "record_type is required"),
        (ApiError::FailedToCreateRecord, 500, "failed to create record"),
        (ApiError::RedirectUriRequired, 400, "redirect_uri is required"),
        (ApiError::StateRequired, 400, "state is required"),
        (ApiError::FailedToCreateDesktopCode, 500, "failed to create desktop code"),
        (ApiError::CodeAndRedirectUriRequired, 400, "code and redirect_uri are required"),
        (ApiError::InvalidOrExpiredCode, 401, "invalid or expired code"),
        (ApiError::MessageRequired, 400, "message is required"),
        (ApiError::MissingAppState, 500, "missing app state"),
        (ApiError::MissingUser, 401, "missing user"),
    ];
    for (e, status, brief) in cases {
        assert_eq!(e.status(), status, "{:?}", e);
        assert_eq!(e.brief(), brief);
    }
}

#[test]
fn records_limit_is_clamped() {
    assert_eq!(records_limit(None), 50);
    assert_eq!(records_limit(Some(0)), 1);
    assert_eq!(records_limit(Some(-9)), 1);
    assert_eq!(records_limit(Some(120)), 120);
    assert_eq!(records_limit(Some(5000)), 200);
}

#[test]
fn required_fields_of_requests() {
    assert_eq!(check_record_type(" \t"), Err(ApiError::RecordTypeRequired));
    assert_eq!(check_record_type("lesson"), Ok(()));
    assert_eq!(check_desktop_code_request("", "s"), Err(ApiError::RedirectUriRequired));
    assert_eq!(check_desktop_code_request("app://cb", " "), Err(ApiError::StateRequired));
    assert_eq!(check_desktop_code_request("app://cb", "xyz"), Ok(()));
    assert_eq!(check_consume_request("", "app://cb"), Err(ApiError::CodeAndRedirectUriRequired));
    assert_eq!(check_consume_request("code", " "), Err(ApiError::CodeAndRedirectUriRequired));
    assert_eq!(check_consume_request("code", "app://cb"), Ok(()));
    assert_eq!(DESKTOP_CODE_TTL_SECS, 5 * 60);
}

#[test]
fn desktop_codes_are_consumed_once_and_before_expiry() {
    assert!(is_consumable("h", "cb", None, 100, "h", "cb", 99));
    assert!(!is_consumable("h", "cb", Some(50), 100, "h", "cb", 99));
    assert!(!is_consumable("h", "cb", None, 100, "h", "cb", 100));
    assert!(!is_consumable("h", "cb", None, 100, "g", "cb", 99));
    assert!(!is_consumable("h", "cb", None, 100, "h", "other", 99));
}

#[test]
fn chat_hints_and_reply() {
    assert_eq!(simple_corrections("Yesterday I has a cat"), vec!["Use \"I have …\" instead of \"I has …\".".to_string()]);
    assert_eq!(
        simple_corrections("HE GO to school and i has books"),
        vec![
            "Use \"I have …\" instead of \"I has …\".".to_string(),
            "Use \"he goes …\" for third person singular.".to_string()
        ]
    );
    assert!(simple_corrections("all good").is_empty());
    let t = chat_turn("  I like tea  ").ok().unwrap();
    assert_eq!(t.reply, "Let's continue. Tell me more about: I like tea");
    assert!(t.corrections.is_empty());
    assert_eq!(
        t.suggestions,
        vec![
            "Try answering with one more detail.".to_string(),
            "Ask me a follow-up question to keep the conversation going.".to_string()
        ]
    );
    assert!(matches!(chat_turn("   "), Err(ApiError::MessageRequired)));
}

#[test]
fn cors_headers_echo_the_origin() {
    assert_eq!(cors_origin(None), "*");
    assert_eq!(cors_origin(Some("https://a.example")), "https://a.example");
    let h = cors_headers(Some("https://a.example"));
    assert_eq!(h.len(), 5);
    assert_eq!(h[0], ("access-control-allow-origin".to_string(), "https://a.example".to_string()));
    assert_eq!(h[2].1, "GET,POST,PUT,PATCH,DELETE,OPTIONS");
    assert_eq!(h[3].1, "86400");
    assert!(is_preflight("OPTIONS"));
    assert!(!is_preflight("GET"));
}

#[test]
fn uuid_subjects_are_read() {
    let c = AccessClaims { sub: "550e8400-e29b-41d4-a716-446655440000".to_string(), exp: 0, iat: 0 };
    assert_eq!(user_uuid_of_claims(Some(&c)), Ok(0x550e8400e29b41d4a716446655440000u128));
    let c = AccessClaims { sub: "42".to_string(), exp: 0, iat: 0 };
    assert_eq!(user_uuid_of_claims(Some(&c)), Err(ApiError::InvalidToken));
    assert_eq!(user_uuid_of_claims(None), Err(ApiError::InvalidToken));
}

#[test]
fn app_errors_are_answered() {
    let r = AppError::Diesel(DbError::NotFound).write();
    assert_eq!((r.status, r.body.code, r.body.brief.as_deref()), (500, 404, Some("Resource not found.")));
    let r = AppError::Diesel(DbError::Other("x".to_string())).write();
    assert_eq!((r.body.code, r.body.brief.as_deref()), (500, Some("Database error.")));
    let r = AppError::public("shown".to_string()).write();
    assert_eq!((r.status, r.body.brief.as_deref()), (500, Some("shown")));
    let r = AppError::internal("hidden".to_string()).write();
    assert_eq!((r.status, r.body.brief), (500, None));
    let r = AppError::FrequentlyRequest.write();
    assert_eq!((r.status, r.body.code), (500, 400));
    let r = AppError::Salvo("boom".to_string()).write();
    assert_eq!(r.body.brief.as_deref(), Some("Unknown error happened in salvo."));
    let r = AppError::Io("disk".to_string()).write();
    assert_eq!(r.body.brief.as_deref(), Some("Unknown error happened."));
    let r = AppError::StatusError(StatusInfo { code: 401, brief: Some("nope".to_string()) }).write();
    assert_eq!((r.status, r.body.code, r.body.brief.as_deref()), (401, 401, Some("nope")));
    assert!(AppError::Diesel(DbError::NotFound).is_not_found());
    assert!(!AppError::internal("x".to_string()).is_not_found());
}

#[test]
fn path_ids_are_numbers() {
    assert_eq!(path_id(Some("15")).ok(), Some(15));
    let e = path_id(None).err().unwrap();
    assert_eq!((e.code, e.brief.as_deref()), (400, Some("missing id")));
    let e = path_id(Some("x1")).err().unwrap();
    assert_eq!((e.code, e.brief.as_deref()), (400, Some("invalid id")));
}

fn stored(hash: &str, uri: &str, used_at: Option<i64>, expires_at: i64) -> StoredDesktopCode {
    StoredDesktopCode { code_hash: hash.to_string(), redirect_uri: uri.to_string(), used_at, expires_at }
}

#[test]
fn desktop_code_is_redeemed_once() {
    let mut codes = vec![stored("g", "cb", None, 1000), stored("h", "cb", None, 1000)];
    assert_eq!(redeem_desktop_code(&mut codes, "h", "cb", 10), Some(1));
    assert_eq!(codes[1].used_at, Some(10));
    assert_eq!(codes[0].used_at, None);
    assert_eq!(redeem_desktop_code(&mut codes, "h", "cb", 11), None);
    assert_eq!(codes[1].used_at, Some(10));
}

#[test]
fn expired_or_mismatched_codes_are_not_redeemed() {
    let mut codes = vec![stored("h", "cb", None, 100)];
    assert_eq!(redeem_desktop_code(&mut codes, "h", "cb", 100), None);
    assert_eq!(redeem_desktop_code(&mut codes, "h", "other", 50), None);
    assert_eq!(redeem_desktop_code(&mut codes, "x", "cb", 50), None);
    assert_eq!(codes[0].used_at, None);
    assert_eq!(redeem_desktop_code(&mut codes, "h", "cb", 50), Some(0));
}
