//! Access tokens, bearer headers, password hashes and desktop sign-in codes.
use vstd::prelude::*;
use vstd::string::StringSliceAdditionalSpecFns;
use argon2::password_hash::SaltString;
use argon2::{Argon2, PasswordHash, PasswordHasher, PasswordVerifier};
use base64::Engine;
use rand::RngCore;
use sha2::{Digest, Sha256};
use crate::decimal::{format_i64, int_text, parse_i64, parsed_i64};
use crate::text::{starts_with_seq, strip_prefix};

verus! {

/// The claims carried by an access token.
#[derive(Debug)]
pub struct AccessClaims {
    /// The user's id, in decimal.
    pub sub: String,
    /// When the token stops being valid, in seconds since the epoch.
    pub exp: usize,
    /// When the token was issued, in seconds since the epoch.
    pub iat: usize,
}

/// The longest lifetime, in seconds, that a `chrono::TimeDelta` can be built from.
pub const MAX_TTL_SECS: u64 = 9223372036854775;

/// The last second, counted from the epoch, that a `chrono::DateTime<Utc>` can hold.
pub const MAX_UTC_TIMESTAMP: i64 = 8210266876799;

impl AccessClaims {
    /// The claims of a token issued to `user_id` at `now` (seconds since the
    /// epoch) that lives `ttl_seconds`.
    pub fn issued(user_id: i64, now: i64, ttl_seconds: u64) -> (r: AccessClaims)
        requires
            ttl_seconds <= MAX_TTL_SECS,
            now + ttl_seconds <= MAX_UTC_TIMESTAMP,
        ensures
            r.sub@ == int_text(user_id as int),
            r.iat == now as usize,
            r.exp == (now + ttl_seconds) as usize,
    {
        AccessClaims::with_subject(format_i64(user_id), now, ttl_seconds)
    }

    /// The claims of a token for the subject `sub`, issued at `now` and
    /// living `ttl_seconds`.
    pub fn with_subject(sub: String, now: i64, ttl_seconds: u64) -> (r: AccessClaims)
        requires
            ttl_seconds <= MAX_TTL_SECS,
            now + ttl_seconds <= MAX_UTC_TIMESTAMP,
        ensures
            r.sub@ == sub@,
            r.iat == now as usize,
            r.exp == (now + ttl_seconds) as usize,
    {
        let exp_ts: i64 = now + ttl_seconds as i64;
        AccessClaims {
            sub,
            iat: #[verifier::truncate] (now as usize),
            exp: #[verifier::truncate] (exp_ts as usize),
        }
    }
}

/// Why a request was refused as unauthenticated, or a password check failed.
#[derive(Clone, Copy, Debug, PartialEq, Eq, Structural)]
pub enum AuthError {
    MissingAuthorization,
    InvalidAuthorization,
    InvalidToken,
    InvalidPasswordHash,
    WrongCredentials,
}

impl AuthError {
    pub open spec fn brief_spec(self) -> Seq<char> {
        match self {
            AuthError::MissingAuthorization => "missing authorization"@,
            AuthError::InvalidAuthorization => "invalid authorization"@,
            AuthError::InvalidToken => "invalid token"@,
            AuthError::InvalidPasswordHash => "invalid password hash"@,
            AuthError::WrongCredentials => "wrong username or password"@,
        }
    }

    /// The message sent with the `401 Unauthorized` answer.
    pub fn brief(&self) -> (r: String)
        ensures
            r@ == self.brief_spec(),
    {
        match self {
            AuthError::MissingAuthorization => "missing authorization".to_string(),
            AuthError::InvalidAuthorization => "invalid authorization".to_string(),
            AuthError::InvalidToken => "invalid token".to_string(),
            AuthError::InvalidPasswordHash => "invalid password hash".to_string(),
            AuthError::WrongCredentials => "wrong username or password".to_string(),
        }
    }
}

/// The token of an `Authorization: Bearer <token>` header (`None` when the
/// request has no readable `Authorization` header).
pub fn bearer_token(header: Option<&str>) -> (r: Result<String, AuthError>)
    ensures
        match header {
            None => r == Err::<String, AuthError>(AuthError::MissingAuthorization),
            Some(h) => if starts_with_seq(h@, "Bearer "@) {
                r is Ok && r->Ok_0@ == h@.skip("Bearer "@.len() as int)
            } else {
                r == Err::<String, AuthError>(AuthError::InvalidAuthorization)
            },
        },
{
    match header {
        None => Err(AuthError::MissingAuthorization),
        Some(h) => match strip_prefix(h, "Bearer ") {
            Some(t) => Ok(t),
            None => Err(AuthError::InvalidAuthorization),
        },
    }
}

/// The user a token speaks for, from the outcome of decoding and validating it.
pub fn user_of_claims(decoded: Option<&AccessClaims>) -> (r: Result<i64, AuthError>)
    ensures
        match decoded {
            None => r == Err::<i64, AuthError>(AuthError::InvalidToken),
            Some(c) => match parsed_i64(c.sub@) {
                Some(id) => r == Ok::<i64, AuthError>(id),
                None => r == Err::<i64, AuthError>(AuthError::InvalidToken),
            },
        },
{
    match decoded {
        None => Err(AuthError::InvalidToken),
        Some(c) => match parse_i64(c.sub.as_str()) {
            Some(id) => Ok(id),
            None => Err(AuthError::InvalidToken),
        },
    }
}

/// The claims (subject, issued-at, expiry) of a token that `jsonwebtoken`
/// reads with the HMAC-SHA256 key made of `secret` and its default
/// validation, the expiry check aside: `None` when the signature, algorithm
/// or form does not check out, or the claims lack a text `sub` or numeric
/// `iat` and `exp`.
pub uninterp spec fn jwt_claims_of(token: Seq<char>, secret: Seq<char>) -> Option<(Seq<char>, usize, usize)>;

/// `jsonwebtoken::decode` with `Validation::default()` and the key
/// `DecodingKey::from_secret`, its claims read as `sub`, `iat`, `exp`.
/// Claimed: what it returns is `jwt_claims_of` the token and the secret.
/// Whether it returns anything also depends on the clock (an expired token
/// is refused), so no clause says when it does.
#[verifier::external_body]
fn jwt_decode(token: &str, secret: &str) -> (r: Option<(String, usize, usize)>)
    ensures
        r matches Some(c) ==> jwt_claims_of(token@, secret@) == Some((c.0@, c.1, c.2)),
{
    let key = jsonwebtoken::DecodingKey::from_secret(secret.as_bytes());
    let data = jsonwebtoken::decode::<serde_json::Value>(token, &key, &jsonwebtoken::Validation::default()).ok()?;
    let c = data.claims;
    let sub = c.get("sub")?.as_str()?.to_string();
    let iat = usize::try_from(c.get("iat")?.as_u64()?).ok()?;
    let exp = usize::try_from(c.get("exp")?.as_u64()?).ok()?;
    Some((sub, iat, exp))
}

/// The claims of a valid, unexpired access token signed with `jwt_secret`;
/// `"invalid token"` otherwise.
pub fn decode_access_token(token: &str, jwt_secret: &str) -> (r: Result<AccessClaims, String>)
    ensures
        r matches Ok(c) ==> jwt_claims_of(token@, jwt_secret@) == Some((c.sub@, c.iat, c.exp)),
        jwt_claims_of(token@, jwt_secret@) is None ==> r is Err,
        r matches Err(e) ==> e@ == "invalid token"@,
{
    match jwt_decode(token, jwt_secret) {
        Some((sub, iat, exp)) => Ok(AccessClaims { sub, exp, iat }),
        None => Err("invalid token".to_string()),
    }
}

/// A token issued to a user names that user again.
pub proof fn lemma_issued_token_names_its_user(user_id: i64, c: AccessClaims)
    requires
        c.sub@ == int_text(user_id as int),
    ensures
        parsed_i64(c.sub@) == Some(user_id),
{
    crate::decimal::lemma_i64_text_round_trip(user_id);
}

// ---------------------------------------------------------------------------
// Desktop sign-in codes

/// The character that stands for `n` in `0..16` in lower-case hexadecimal.
pub open spec fn hex_digit(n: int) -> char {
    if n < 10 {
        ('0' as int + n) as char
    } else {
        ('a' as int + n - 10) as char
    }
}

/// Lower-case hexadecimal, two characters per byte.
pub open spec fn hex_lower(b: Seq<u8>) -> Seq<char>
    decreases b.len(),
{
    if b.len() == 0 {
        Seq::empty()
    } else {
        hex_lower(b.drop_last()) + seq![hex_digit(b.last() as int / 16), hex_digit(b.last() as int % 16)]
    }
}

/// The character that stands for `n` in `0..64` in the URL-safe base64 alphabet.
pub open spec fn b64_url_char(n: int) -> char {
    if n < 26 {
        ('A' as int + n) as char
    } else if n < 52 {
        ('a' as int + n - 26) as char
    } else if n < 62 {
        ('0' as int + n - 52) as char
    } else if n == 62 {
        '-'
    } else {
        '_'
    }
}

/// URL-safe base64 without padding: each 3 bytes become 4 characters, and a
/// tail of 1 or 2 bytes becomes 2 or 3.
pub open spec fn base64_url(b: Seq<u8>) -> Seq<char>
    decreases b.len(),
{
    if b.len() == 0 {
        Seq::empty()
    } else if b.len() == 1 {
        seq![b64_url_char(b[0] as int / 4), b64_url_char((b[0] as int % 4) * 16)]
    } else if b.len() == 2 {
        seq![
            b64_url_char(b[0] as int / 4),
            b64_url_char((b[0] as int % 4) * 16 + b[1] as int / 16),
            b64_url_char((b[1] as int % 16) * 4),
        ]
    } else {
        seq![
            b64_url_char(b[0] as int / 4),
            b64_url_char((b[0] as int % 4) * 16 + b[1] as int / 16),
            b64_url_char((b[1] as int % 16) * 4 + b[2] as int / 64),
            b64_url_char(b[2] as int % 64),
        ] + base64_url(b.subrange(3, b.len() as int))
    }
}

/// The SHA-256 digest of `data`.
pub uninterp spec fn sha256_digest(data: Seq<u8>) -> Seq<u8>;

/// `Sha256::digest`: claimed to return `sha256_digest` of its input, 32 bytes long.
#[verifier::external_body]
fn sha256(data: &[u8]) -> (r: Vec<u8>)
    ensures
        r@ == sha256_digest(data@),
        r@.len() == 32,
{
    Sha256::digest(data).to_vec()
}

/// `hex::encode`: claimed to write each byte as two lower-case hexadecimal digits.
#[verifier::external_body]
fn hex_encode(data: &[u8]) -> (r: String)
    ensures
        r@ == hex_lower(data@),
{
    hex::encode(data)
}

/// `URL_SAFE_NO_PAD.encode` of the `base64` crate: claimed to be `base64_url` of its input.
#[verifier::external_body]
fn base64_url_encode(data: &[u8]) -> (r: String)
    ensures
        r@ == base64_url(data@),
{
    base64::engine::general_purpose::URL_SAFE_NO_PAD.encode(data)
}

/// `OsRng.fill_bytes` on 32 bytes: claimed only to give 32 bytes.
#[verifier::external_body]
fn random_bytes() -> (r: Vec<u8>)
    ensures
        r@.len() == 32,
{
    let mut bytes = [0u8; 32];
    rand::rngs::OsRng.fill_bytes(&mut bytes);
    bytes.to_vec()
}

proof fn lemma_base64_len(b: Seq<u8>)
    ensures
        base64_url(b).len() == (4 * b.len() + 2) / 3,
    decreases b.len(),
{
    if b.len() >= 3 {
        lemma_base64_len(b.subrange(3, b.len() as int));
    }
}

/// A fresh sign-in code: 32 random bytes in URL-safe base64, 43 characters.
pub fn random_code() -> (r: String)
    ensures
        exists|b: Seq<u8>| b.len() == 32 && r@ == base64_url(b),
        r@.len() == 43,
{
    let bytes = random_bytes();
    let r = base64_url_encode(bytes.as_slice());
    proof {
        lemma_base64_len(bytes@);
    }
    r
}

/// What is stored of a desktop sign-in code: the hexadecimal SHA-256 of its bytes.
pub fn hash_desktop_code(code: &str) -> (r: String)
    ensures
        r@ == hex_lower(sha256_digest(code.spec_bytes())),
{
    let digest = sha256(code.as_bytes());
    hex_encode(digest.as_slice())
}

// ---------------------------------------------------------------------------
// Passwords

/// Whether `password` matches the PHC string `phc` under Argon2: `None` when
/// `phc` is not a readable password hash.
pub uninterp spec fn argon2_check(password: Seq<u8>, phc: Seq<char>) -> Option<bool>;

/// `Argon2::default().hash_password` with a fresh `SaltString` from `OsRng`,
/// written as a PHC string. The salt is random, so nothing is claimed of the
/// string itself; claimed is what the source of `PasswordVerifier` shows: the
/// password checks out against the hash made of it. Hashing fails only for a
/// password longer than `MAX_PWD_LEN` (`0xFFFF_FFFF` bytes): a generated salt
/// always has an accepted length, and the default parameters are valid.
#[verifier::external_body]
fn argon2_hash(password: &[u8]) -> (r: Option<String>)
    ensures
        password@.len() <= 0xFFFF_FFFF ==> r is Some,
        r matches Some(h) ==> argon2_check(password@, h@) == Some(true),
{
    let salt = SaltString::generate(&mut rand::rngs::OsRng);
    match Argon2::default().hash_password(password, &salt) {
        Ok(h) => Some(h.to_string()),
        Err(_) => None,
    }
}

/// `PasswordHash::new` followed by `Argon2::default().verify_password`:
/// claimed to give `argon2_check` of the password and the string.
#[verifier::external_body]
fn argon2_verify(password: &[u8], phc: &str) -> (r: Option<bool>)
    ensures
        r == argon2_check(password@, phc@),
{
    match PasswordHash::new(phc) {
        Ok(parsed) => Some(Argon2::default().verify_password(password, &parsed).is_ok()),
        Err(_) => None,
    }
}

/// Hashes a password for storage.
pub fn hash_password(password: &str) -> (r: Result<String, String>)
    ensures
        password.spec_bytes().len() <= 0xFFFF_FFFF ==> r is Ok,
        r matches Ok(h) ==> argon2_check(password.spec_bytes(), h@) == Some(true),
        r matches Err(e) ==> e@ == "failed to hash password"@,
{
    match argon2_hash(password.as_bytes()) {
        Some(h) => Ok(h),
        None => Err("failed to hash password".to_string()),
    }
}

/// Checks a password against its stored hash.
pub fn verify_password(password: &str, password_hash: &str) -> (r: Result<(), AuthError>)
    ensures
        match argon2_check(password.spec_bytes(), password_hash@) {
            None => r == Err::<(), AuthError>(AuthError::InvalidPasswordHash),
            Some(true) => r is Ok,
            Some(false) => r == Err::<(), AuthError>(AuthError::WrongCredentials),
        },
{
    match argon2_verify(password.as_bytes(), password_hash) {
        None => Err(AuthError::InvalidPasswordHash),
        Some(true) => Ok(()),
        Some(false) => Err(AuthError::WrongCredentials),
    }
}

} // verus!
