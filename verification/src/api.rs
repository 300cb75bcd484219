//! The rules of the learning API: what each request must carry, how its
//! failures are answered, and what the practice chat replies.
use vstd::prelude::*;
use crate::auth::AccessClaims;
use crate::text::{contains_seq, lowercase, str_contains, to_lowercase, trim, trim_seq};

verus! {

/// The ways a request to the learning API fails.
#[derive(Clone, Copy, Debug, PartialEq, Eq, Structural)]
pub enum ApiError {
    InvalidJson,
    EmailRequired,
    PasswordTooShort,
    FailedToCreateUser,
    EmailAlreadyRegistered,
    FailedToIssueToken,
    InvalidCredentials,
    MissingAuthorization,
    InvalidAuthorization,
    InvalidToken,
    UserNotFound,
    FailedToUpdateProfile,
    FailedToListRecords,
    RecordTypeRequired,
    FailedToCreateRecord,
    RedirectUriRequired,
    StateRequired,
    FailedToCreateDesktopCode,
    CodeAndRedirectUriRequired,
    InvalidOrExpiredCode,
    MessageRequired,
    MissingAppState,
    MissingUser,
}

impl ApiError {
    pub open spec fn status_spec(self) -> u16 {
        match self {
            ApiError::InvalidJson | ApiError::EmailRequired | ApiError::PasswordTooShort
            | ApiError::RecordTypeRequired | ApiError::RedirectUriRequired | ApiError::StateRequired
            | ApiError::CodeAndRedirectUriRequired | ApiError::MessageRequired => 400,
            ApiError::InvalidCredentials | ApiError::MissingAuthorization
            | ApiError::InvalidAuthorization | ApiError::InvalidToken
            | ApiError::InvalidOrExpiredCode | ApiError::MissingUser => 401,
            ApiError::UserNotFound => 404,
            ApiError::EmailAlreadyRegistered => 409,
            _ => 500,
        }
    }

    pub open spec fn brief_spec(self) -> Seq<char> {
        match self {
            ApiError::InvalidJson => "invalid json"@,
            ApiError::EmailRequired => "email is required"@,
            ApiError::PasswordTooShort => "password must be at least 8 characters"@,
            ApiError::FailedToCreateUser => "failed to create user"@,
            ApiError::EmailAlreadyRegistered => "email already registered"@,
            ApiError::FailedToIssueToken => "failed to issue token"@,
            ApiError::InvalidCredentials => "invalid credentials"@,
            ApiError::MissingAuthorization => "missing authorization"@,
            ApiError::InvalidAuthorization => "invalid authorization"@,
            ApiError::InvalidToken => "invalid token"@,
            ApiError::UserNotFound => "user not found"@,
            ApiError::FailedToUpdateProfile => "failed to update profile"@,
            ApiError::FailedToListRecords => "failed to list records"@,
            ApiError::RecordTypeRequired => "record_type is required"@,
            ApiError::FailedToCreateRecord => "failed to create record"@,
            ApiError::RedirectUriRequired => "redirect_uri is required"@,
            ApiError::StateRequired => "state is required"@,
            ApiError::FailedToCreateDesktopCode => "failed to create desktop code"@,
            ApiError::CodeAndRedirectUriRequired => "code and redirect_uri are required"@,
            ApiError::InvalidOrExpiredCode => "invalid or expired code"@,
            ApiError::MessageRequired => "message is required"@,
            ApiError::MissingAppState => "missing app state"@,
            ApiError::MissingUser => "missing user"@,
        }
    }

    /// The HTTP status the error is answered with.
    pub fn status(&self) -> (r: u16)
        ensures
            r == self.status_spec(),
    {
        match self {
            ApiError::InvalidJson | ApiError::EmailRequired | ApiError::PasswordTooShort
            | ApiError::RecordTypeRequired | ApiError::RedirectUriRequired | ApiError::StateRequired
            | ApiError::CodeAndRedirectUriRequired | ApiError::MessageRequired => 400,
            ApiError::InvalidCredentials | ApiError::MissingAuthorization
            | ApiError::InvalidAuthorization | ApiError::InvalidToken
            | ApiError::InvalidOrExpiredCode | ApiError::MissingUser => 401,
            ApiError::UserNotFound => 404,
            ApiError::EmailAlreadyRegistered => 409,
            _ => 500,
        }
    }

    /// The message the error is answered with.
    pub fn brief(&self) -> (r: String)
        ensures
            r@ == self.brief_spec(),
    {
        let s = match self {
            ApiError::InvalidJson => "invalid json",
            ApiError::EmailRequired => "email is required",
            ApiError::PasswordTooShort => "password must be at least 8 characters",
            ApiError::FailedToCreateUser => "failed to create user",
            ApiError::EmailAlreadyRegistered => "email already registered",
            ApiError::FailedToIssueToken => "failed to issue token",
            ApiError::InvalidCredentials => "invalid credentials",
            ApiError::MissingAuthorization => "missing authorization",
            ApiError::InvalidAuthorization => "invalid authorization",
            ApiError::InvalidToken => "invalid token",
            ApiError::UserNotFound => "user not found",
            ApiError::FailedToUpdateProfile => "failed to update profile",
            ApiError::FailedToListRecords => "failed to list records",
            ApiError::RecordTypeRequired => "record_type is required",
            ApiError::FailedToCreateRecord => "failed to create record",
            ApiError::RedirectUriRequired => "redirect_uri is required",
            ApiError::StateRequired => "state is required",
            ApiError::FailedToCreateDesktopCode => "failed to create desktop code",
            ApiError::CodeAndRedirectUriRequired => "code and redirect_uri are required",
            ApiError::InvalidOrExpiredCode => "invalid or expired code",
            ApiError::MessageRequired => "message is required",
            ApiError::MissingAppState => "missing app state",
            ApiError::MissingUser => "missing user",
        };
        s.to_string()
    }
}

/// A text field counts as given when something is left of it after trimming.
pub open spec fn is_blank(s: Seq<char>) -> bool {
    trim_seq(s).len() == 0
}

fn blank(s: &str) -> (r: bool)
    ensures
        r == is_blank(s@),
{
    let t = trim(s);
    t.as_str().unicode_len() == 0
}

/// The form an e-mail address is stored and looked up in.
pub open spec fn normalized_email(email: Seq<char>) -> Seq<char> {
    lowercase(trim_seq(email))
}

pub fn normalize_email(email: &str) -> (r: String)
    ensures
        r@ == normalized_email(email@),
{
    let t = trim(email);
    to_lowercase(t.as_str())
}

/// Checks a registration: the normalised address must not be empty and the
/// password must be at least 8 bytes long. Gives the normalised address.
pub fn check_registration(email: &str, password: &str) -> (r: Result<String, ApiError>)
    ensures
        normalized_email(email@).len() == 0 ==> r == Err::<String, ApiError>(ApiError::EmailRequired),
        normalized_email(email@).len() != 0 && password.len() < 8 ==> r == Err::<String, ApiError>(
            ApiError::PasswordTooShort,
        ),
        normalized_email(email@).len() != 0 && password.len() >= 8 ==> r is Ok && r->Ok_0@
            == normalized_email(email@),
{
    let e = normalize_email(email);
    if e.as_str().unicode_len() == 0 {
        return Err(ApiError::EmailRequired);
    }
    if password.len() < 8 {
        return Err(ApiError::PasswordTooShort);
    }
    Ok(e)
}

/// Checks the address of a sign-in and gives it normalised.
pub fn check_login_email(email: &str) -> (r: Result<String, ApiError>)
    ensures
        normalized_email(email@).len() == 0 ==> r == Err::<String, ApiError>(ApiError::EmailRequired),
        normalized_email(email@).len() != 0 ==> r is Ok && r->Ok_0@ == normalized_email(email@),
{
    let e = normalize_email(email);
    if e.as_str().unicode_len() == 0 {
        return Err(ApiError::EmailRequired);
    }
    Ok(e)
}

/// How a failed insert of a new user is answered: a unique-constraint
/// violation means the address is taken.
pub fn registration_failure(db_message: &str) -> (r: ApiError)
    ensures
        r == (if contains_seq(db_message@, "UniqueViolation"@) || contains_seq(db_message@, "unique"@) {
            ApiError::EmailAlreadyRegistered
        } else {
            ApiError::FailedToCreateUser
        }),
{
    if str_contains(db_message, "UniqueViolation") || str_contains(db_message, "unique") {
        ApiError::EmailAlreadyRegistered
    } else {
        ApiError::FailedToCreateUser
    }
}

/// How many learning records a listing returns: 50 unless asked, and never
/// fewer than 1 or more than 200.
pub fn records_limit(asked: Option<i64>) -> (r: i64)
    ensures
        r == (match asked {
            None => 50,
            Some(n) => if n < 1 { 1 } else if n > 200 { 200 } else { n },
        }),
{
    match asked {
        None => 50,
        Some(n) => if n < 1 { 1 } else if n > 200 { 200 } else { n },
    }
}

pub fn check_record_type(record_type: &str) -> (r: Result<(), ApiError>)
    ensures
        is_blank(record_type@) ==> r == Err::<(), ApiError>(ApiError::RecordTypeRequired),
        !is_blank(record_type@) ==> r is Ok,
{
    if blank(record_type) { Err(ApiError::RecordTypeRequired) } else { Ok(()) }
}

/// Seconds a desktop sign-in code stays valid.
pub const DESKTOP_CODE_TTL_SECS: i64 = 300;

pub fn check_desktop_code_request(redirect_uri: &str, state: &str) -> (r: Result<(), ApiError>)
    ensures
        is_blank(redirect_uri@) ==> r == Err::<(), ApiError>(ApiError::RedirectUriRequired),
        !is_blank(redirect_uri@) && is_blank(state@) ==> r == Err::<(), ApiError>(ApiError::StateRequired),
        !is_blank(redirect_uri@) && !is_blank(state@) ==> r is Ok,
{
    if blank(redirect_uri) {
        return Err(ApiError::RedirectUriRequired);
    }
    if blank(state) {
        return Err(ApiError::StateRequired);
    }
    Ok(())
}

pub fn check_consume_request(code: &str, redirect_uri: &str) -> (r: Result<(), ApiError>)
    ensures
        is_blank(code@) || is_blank(redirect_uri@) ==> r == Err::<(), ApiError>(
            ApiError::CodeAndRedirectUriRequired,
        ),
        !is_blank(code@) && !is_blank(redirect_uri@) ==> r is Ok,
{
    if blank(code) || blank(redirect_uri) {
        Err(ApiError::CodeAndRedirectUriRequired)
    } else {
        Ok(())
    }
}

/// A stored desktop code can be exchanged for a token when the hash and the
/// redirect address match, it was never used, and it has not expired at `now`.
pub open spec fn consumable_spec(
    stored_hash: Seq<char>,
    stored_redirect_uri: Seq<char>,
    used_at: Option<i64>,
    expires_at: i64,
    code_hash: Seq<char>,
    redirect_uri: Seq<char>,
    now: i64,
) -> bool {
    &&& stored_hash == code_hash
    &&& stored_redirect_uri == redirect_uri
    &&& used_at is None
    &&& expires_at > now
}

pub fn is_consumable(
    stored_hash: &str,
    stored_redirect_uri: &str,
    used_at: Option<i64>,
    expires_at: i64,
    code_hash: &str,
    redirect_uri: &str,
    now: i64,
) -> (r: bool)
    ensures
        r == consumable_spec(
            stored_hash@,
            stored_redirect_uri@,
            used_at,
            expires_at,
            code_hash@,
            redirect_uri@,
            now,
        ),
{
    crate::text::str_eq(stored_hash, code_hash) && crate::text::str_eq(stored_redirect_uri, redirect_uri)
        && used_at.is_none() && expires_at > now
}

/// A stored desktop sign-in code: the hash of the code, the address it was
/// issued for, when it was used (never, so far, when `None`) and when it
/// expires, instants in microseconds since the epoch.
pub struct StoredDesktopCode {
    pub code_hash: String,
    pub redirect_uri: String,
    pub used_at: Option<i64>,
    pub expires_at: i64,
}

/// The mathematical value of a stored code.
pub struct CodeView {
    pub code_hash: Seq<char>,
    pub redirect_uri: Seq<char>,
    pub used_at: Option<i64>,
    pub expires_at: i64,
}

impl View for StoredDesktopCode {
    type V = CodeView;

    open spec fn view(&self) -> CodeView {
        CodeView {
            code_hash: self.code_hash@,
            redirect_uri: self.redirect_uri@,
            used_at: self.used_at,
            expires_at: self.expires_at,
        }
    }
}

/// The views of stored codes.
pub open spec fn codes_view(codes: Seq<StoredDesktopCode>) -> Seq<CodeView> {
    codes.map_values(|c: StoredDesktopCode| c@)
}

/// The stored code can be exchanged, at `now`, for the code of hash
/// `code_hash` presented with `redirect_uri`.
pub open spec fn code_redeemable(c: CodeView, code_hash: Seq<char>, redirect_uri: Seq<char>, now: i64) -> bool {
    consumable_spec(c.code_hash, c.redirect_uri, c.used_at, c.expires_at, code_hash, redirect_uri, now)
}

/// The stored code once it has been used at `now`.
pub open spec fn mark_used(c: CodeView, now: i64) -> CodeView {
    CodeView { used_at: Some(now), ..c }
}

/// Redeems a desktop sign-in code among the stored ones: the first stored
/// code that can be exchanged at `now` is marked used at `now` and its
/// position is returned; `None`, with nothing changed, when none can.
pub fn redeem_desktop_code(codes: &mut Vec<StoredDesktopCode>, code_hash: &str, redirect_uri: &str, now: i64) -> (r: Option<usize>)
    ensures
        match r {
            Some(k) => {
                &&& k < old(codes)@.len()
                &&& code_redeemable(old(codes)@[k as int]@, code_hash@, redirect_uri@, now)
                &&& forall|j: int| 0 <= j < k ==> !code_redeemable(#[trigger] old(codes)@[j]@, code_hash@, redirect_uri@, now)
                &&& codes_view(final(codes)@) == codes_view(old(codes)@).update(k as int, mark_used(old(codes)@[k as int]@, now))
            },
            None => {
                &&& forall|j: int| 0 <= j < old(codes)@.len() ==> !code_redeemable(#[trigger] old(codes)@[j]@, code_hash@, redirect_uri@, now)
                &&& codes_view(final(codes)@) == codes_view(old(codes)@)
            },
        },
{
    let mut k: usize = 0;
    while k < codes.len()
        invariant
            k <= codes@.len(),
            codes@ == old(codes)@,
            forall|j: int| 0 <= j < k ==> !code_redeemable(#[trigger] codes@[j]@, code_hash@, redirect_uri@, now),
        decreases codes@.len() - k,
    {
        let c = &codes[k];
        if is_consumable(&c.code_hash, &c.redirect_uri, c.used_at, c.expires_at, code_hash, redirect_uri, now) {
            let used = StoredDesktopCode {
                code_hash: c.code_hash.clone(),
                redirect_uri: c.redirect_uri.clone(),
                used_at: Some(now),
                expires_at: c.expires_at,
            };
            let ghost before = codes@;
            codes.set(k, used);
            assert(codes_view(codes@) =~= codes_view(before).update(k as int, mark_used(before[k as int]@, now)));
            return Some(k);
        }
        k = k + 1;
    }
    None
}

/// A desktop sign-in code is redeemed at most once: once a redeem has marked
/// a stored code used, that code can no longer be exchanged at any later
/// time; and where no other stored code carries the same hash, every later
/// redeem of the code fails.
pub proof fn lemma_code_redeemed_once(
    codes: Seq<CodeView>,
    k: int,
    code_hash: Seq<char>,
    redirect_uri: Seq<char>,
    now: i64,
    later: i64,
)
    requires
        0 <= k < codes.len(),
        code_redeemable(codes[k], code_hash, redirect_uri, now),
    ensures
        !code_redeemable(codes.update(k, mark_used(codes[k], now))[k], code_hash, redirect_uri, later),
        (forall|j: int| 0 <= j < codes.len() && j != k ==> (#[trigger] codes[j]).code_hash != code_hash) ==>
            forall|j: int| 0 <= j < codes.len() ==> !code_redeemable(
                #[trigger] codes.update(k, mark_used(codes[k], now))[j], code_hash, redirect_uri, later),
{
    let after = codes.update(k, mark_used(codes[k], now));
    if forall|j: int| 0 <= j < codes.len() && j != k ==> (#[trigger] codes[j]).code_hash != code_hash {
        assert forall|j: int| 0 <= j < codes.len() implies !code_redeemable(
            #[trigger] after[j], code_hash, redirect_uri, later) by {
            if j != k {
                assert(after[j] == codes[j]);
            }
        }
    }
}

// ---------------------------------------------------------------------------
// Practice chat

pub open spec fn corrections_spec(message: Seq<char>) -> Seq<Seq<char>> {
    let lower = lowercase(message);
    let first: Seq<Seq<char>> = if contains_seq(lower, "i has "@) {
        seq!["Use \"I have …\" instead of \"I has …\"."@]
    } else {
        Seq::empty()
    };
    if contains_seq(lower, "he go "@) {
        first.push("Use \"he goes …\" for third person singular."@)
    } else {
        first
    }
}

pub open spec fn strings_view(v: Seq<String>) -> Seq<Seq<char>> {
    v.map_values(|s: String| s@)
}

/// The grammar hints for a chat message: "I has" and "he go", looked for
/// in the lower-cased message.
pub fn simple_corrections(message: &str) -> (r: Vec<String>)
    ensures
        strings_view(r@) == corrections_spec(message@),
{
    let mut out: Vec<String> = Vec::new();
    let lower = to_lowercase(message);
    if str_contains(lower.as_str(), "i has ") {
        out.push("Use \"I have …\" instead of \"I has …\".".to_string());
    }
    if str_contains(lower.as_str(), "he go ") {
        out.push("Use \"he goes …\" for third person singular.".to_string());
    }
    assert(strings_view(out@) =~= corrections_spec(message@));
    out
}

/// The answer to a chat message.
pub struct ChatTurn {
    pub reply: String,
    pub corrections: Vec<String>,
    pub suggestions: Vec<String>,
}

pub open spec fn suggestions_spec() -> Seq<Seq<char>> {
    seq![
        "Try answering with one more detail."@,
        "Ask me a follow-up question to keep the conversation going."@,
    ]
}

/// Answers a chat message: refused when blank, else a reply that echoes the
/// trimmed message, the grammar hints and two fixed suggestions.
pub fn chat_turn(message: &str) -> (r: Result<ChatTurn, ApiError>)
    ensures
        is_blank(message@) ==> r matches Err(ApiError::MessageRequired),
        !is_blank(message@) ==> (r matches Ok(t) && t.reply@ == "Let's continue. Tell me more about: "@
            + trim_seq(message@) && strings_view(t.corrections@) == corrections_spec(message@)
            && strings_view(t.suggestions@) == suggestions_spec()),
{
    if blank(message) {
        return Err(ApiError::MessageRequired);
    }
    let corrections = simple_corrections(message);
    let mut suggestions: Vec<String> = Vec::new();
    suggestions.push("Try answering with one more detail.".to_string());
    suggestions.push("Ask me a follow-up question to keep the conversation going.".to_string());
    assert(strings_view(suggestions@) =~= suggestions_spec());
    let mut reply = "Let's continue. Tell me more about: ".to_string();
    let t = trim(message);
    vstd::string::StringExecFns::append(&mut reply, t.as_str());
    Ok(ChatTurn { reply, corrections, suggestions })
}

// ---------------------------------------------------------------------------
// Cross-origin requests

/// The origin a response allows: the request's own, or any.
pub fn cors_origin(origin: Option<&str>) -> (r: String)
    ensures
        r@ == (match origin {
            Some(o) => o@,
            None => "*"@,
        }),
{
    match origin {
        Some(o) => o.to_string(),
        None => "*".to_string(),
    }
}

pub open spec fn cors_headers_spec(origin: Seq<char>) -> Seq<(Seq<char>, Seq<char>)> {
    seq![
        ("access-control-allow-origin"@, origin),
        ("access-control-allow-headers"@, "content-type, authorization"@),
        ("access-control-allow-methods"@, "GET,POST,PUT,PATCH,DELETE,OPTIONS"@),
        ("access-control-max-age"@, "86400"@),
        ("vary"@, "origin"@),
    ]
}

pub open spec fn pairs_view(v: Seq<(String, String)>) -> Seq<(Seq<char>, Seq<char>)> {
    v.map_values(|p: (String, String)| (p.0@, p.1@))
}

/// The headers every response carries for cross-origin callers.
pub fn cors_headers(origin: Option<&str>) -> (r: Vec<(String, String)>)
    ensures
        pairs_view(r@) == cors_headers_spec(
            match origin {
                Some(o) => o@,
                None => "*"@,
            },
        ),
{
    let o = cors_origin(origin);
    let mut v: Vec<(String, String)> = Vec::new();
    v.push(("access-control-allow-origin".to_string(), o));
    v.push(("access-control-allow-headers".to_string(), "content-type, authorization".to_string()));
    v.push(("access-control-allow-methods".to_string(), "GET,POST,PUT,PATCH,DELETE,OPTIONS".to_string()));
    v.push(("access-control-max-age".to_string(), "86400".to_string()));
    v.push(("vary".to_string(), "origin".to_string()));
    assert(pairs_view(v@) =~= cors_headers_spec(
        match origin {
            Some(o) => o@,
            None => "*"@,
        },
    ));
    v
}

/// A pre-flight request is answered `204 No Content` and goes no further.
pub fn is_preflight(method: &str) -> (r: bool)
    ensures
        r == (method@ == "OPTIONS"@),
{
    crate::text::str_eq(method, "OPTIONS")
}

// ---------------------------------------------------------------------------
// Users named by UUID

/// The UUID that `Uuid::parse_str` reads from a text, as a number.
pub uninterp spec fn uuid_of_text(s: Seq<char>) -> Option<u128>;

/// `uuid::Uuid::parse_str`, its result taken as `as_u128`: claimed to be `uuid_of_text`.
#[verifier::external_body]
fn parse_uuid(s: &str) -> (r: Option<u128>)
    ensures
        r == uuid_of_text(s@),
{
    uuid::Uuid::parse_str(s).ok().map(|u| u.as_u128())
}

/// The user a token of the learning API speaks for.
pub fn user_uuid_of_claims(decoded: Option<&AccessClaims>) -> (r: Result<u128, ApiError>)
    ensures
        match decoded {
            None => r == Err::<u128, ApiError>(ApiError::InvalidToken),
            Some(c) => match uuid_of_text(c.sub@) {
                Some(u) => r == Ok::<u128, ApiError>(u),
                None => r == Err::<u128, ApiError>(ApiError::InvalidToken),
            },
        },
{
    match decoded {
        None => Err(ApiError::InvalidToken),
        Some(c) => match parse_uuid(c.sub.as_str()) {
            Some(u) => Ok(u),
            None => Err(ApiError::InvalidToken),
        },
    }
}

} // verus!
