//! Accounts and the sign-in tokens written for a device.
//!
//! Instants are kept as microseconds since the Unix epoch, the precision
//! of the `timestamptz` columns they are stored in.
use vstd::prelude::*;

verus! {

/// The current instant, in microseconds since the epoch.
///
/// Calls `chrono::Utc::now()` and reads it with `timestamp_micros()`. The
/// value comes from the system clock, so no clause states what it is.
#[verifier::external_body]
fn now_micros() -> i64 {
    chrono::Utc::now().timestamp_micros()
}

/// An account.
#[derive(Clone, Debug)]
pub struct User {
    pub id: i64,
    pub name: String,
    pub is_admin: bool,
    pub is_guest: bool,
    pub approved_at: Option<i64>,
    pub approved_by: Option<i64>,
    pub deactivated_at: Option<i64>,
    pub deactivated_by: Option<i64>,
    pub locked_at: Option<i64>,
    pub locked_by: Option<i64>,
    pub created_at: i64,
}

impl User {
    /// The account has been deactivated.
    pub fn is_deactivated(&self) -> (r: bool)
        ensures
            r == self.deactivated_at is Some,
    {
        self.deactivated_at.is_some()
    }
}

/// An access token to be stored for a user's device.
#[derive(Clone, Debug)]
pub struct NewAccessToken {
    pub user_id: i64,
    pub device_id: i64,
    pub token: String,
    pub puppets_user_id: Option<i64>,
    pub last_validated: Option<i64>,
    pub refresh_token_id: Option<i64>,
    pub is_used: bool,
    pub expires_at: Option<i64>,
    pub created_at: i64,
}

impl NewAccessToken {
    /// A fresh, unused access token of `user_id` on `device_id`, tied to the
    /// refresh token it was issued with, if any, and created now.
    pub fn new(user_id: i64, device_id: i64, token: String, refresh_token_id: Option<i64>) -> (r: Self)
        ensures
            r.user_id == user_id,
            r.device_id == device_id,
            r.token@ == token@,
            r.puppets_user_id is None,
            r.last_validated is None,
            r.refresh_token_id == refresh_token_id,
            !r.is_used,
            r.expires_at is None,
    {
        NewAccessToken {
            user_id,
            device_id,
            token,
            puppets_user_id: None,
            last_validated: None,
            refresh_token_id,
            is_used: false,
            expires_at: None,
            created_at: now_micros(),
        }
    }
}

/// A refresh token to be stored for a user's device.
#[derive(Clone, Debug)]
pub struct NewRefreshToken {
    pub user_id: i64,
    pub device_id: i64,
    pub token: String,
    pub next_token_id: Option<i64>,
    pub expires_at: i64,
    pub ultimate_session_expires_at: i64,
    pub created_at: i64,
}

impl NewRefreshToken {
    /// A refresh token of `user_id` on `device_id` that has not been
    /// rotated yet, valid until `expires_at`, whose session ends for good
    /// at `ultimate_session_expires_at`, and created now.
    pub fn new(
        user_id: i64,
        device_id: i64,
        token: String,
        expires_at: i64,
        ultimate_session_expires_at: i64,
    ) -> (r: Self)
        ensures
            r.user_id == user_id,
            r.device_id == device_id,
            r.token@ == token@,
            r.next_token_id is None,
            r.expires_at == expires_at,
            r.ultimate_session_expires_at == ultimate_session_expires_at,
    {
        NewRefreshToken {
            user_id,
            device_id,
            token,
            next_token_id: None,
            expires_at,
            ultimate_session_expires_at,
            created_at: now_micros(),
        }
    }
}

} // verus!
