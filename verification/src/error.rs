//! The service's error type and the answer each error is sent as.
use vstd::prelude::*;
use crate::decimal::{parse_i64, parsed_i64};

verus! {

/// What a database call failed with, as far as the answer depends on it.
#[derive(Clone, Debug)]
pub enum DbError {
    NotFound,
    Other(String),
}

/// An HTTP error with its status code and an optional short message.
#[derive(Clone, Debug)]
pub struct StatusInfo {
    pub code: u16,
    pub brief: Option<String>,
}

/// Errors of the service. The variants that wrap an error of another library
/// hold its message.
#[derive(Clone, Debug)]
pub enum AppError {
    Public(String),
    Internal(String),
    Salvo(String),
    FrequentlyRequest,
    Io(String),
    FromUtf8(String),
    Decoding(String),
    UrlParse(String),
    SerdeJson(String),
    Diesel(DbError),
    Pool(String),
    StatusError(StatusInfo),
    HttpParse(String),
    R2d2(String),
    Utf8Error(String),
}

/// The answer to a failed request: the status of the response and the
/// status error rendered in its body.
#[derive(Clone, Debug)]
pub struct ErrorReply {
    pub status: u16,
    pub body: StatusInfo,
}

pub open spec fn opt_chars(o: Option<String>) -> Option<Seq<char>> {
    match o {
        Some(s) => Some(s@),
        None => None,
    }
}

/// The status of the response: that of a status error, else 500.
pub open spec fn reply_status(e: AppError) -> u16 {
    match e {
        AppError::StatusError(s) => s.code,
        _ => 500,
    }
}

/// The code and the message of the status error in the body. A `None`
/// message is the status error's own default text.
pub open spec fn reply_body(e: AppError) -> (u16, Option<Seq<char>>) {
    match e {
        AppError::Salvo(_) => (500, Some("Unknown error happened in salvo."@)),
        AppError::FrequentlyRequest => (400, None),
        AppError::Public(msg) => (500, Some(msg@)),
        AppError::Internal(_) => (500, None),
        AppError::Diesel(DbError::NotFound) => (404, Some("Resource not found."@)),
        AppError::Diesel(DbError::Other(_)) => (500, Some("Database error."@)),
        AppError::StatusError(s) => (s.code, opt_chars(s.brief)),
        _ => (500, Some("Unknown error happened."@)),
    }
}

impl AppError {
    pub fn public(msg: String) -> (r: AppError)
        ensures
            r matches AppError::Public(m) && m@ == msg@,
    {
        AppError::Public(msg)
    }

    pub fn internal(msg: String) -> (r: AppError)
        ensures
            r matches AppError::Internal(m) && m@ == msg@,
    {
        AppError::Internal(msg)
    }

    pub fn is_not_found(&self) -> (r: bool)
        ensures
            r == (*self matches AppError::Diesel(DbError::NotFound)),
    {
        match self {
            AppError::Diesel(DbError::NotFound) => true,
            _ => false,
        }
    }

    /// How the error is answered: the messages of internal errors are not
    /// shown, a missing row is answered 404 in the body.
    pub fn write(&self) -> (r: ErrorReply)
        ensures
            r.status == reply_status(*self),
            (r.body.code, opt_chars(r.body.brief)) == reply_body(*self),
    {
        let status: u16 = match self {
            AppError::StatusError(s) => s.code,
            _ => 500,
        };
        let body = match self {
            AppError::Salvo(_) => StatusInfo {
                code: 500,
                brief: Some("Unknown error happened in salvo.".to_string()),
            },
            AppError::FrequentlyRequest => StatusInfo { code: 400, brief: None },
            AppError::Public(msg) => StatusInfo { code: 500, brief: Some(msg.clone()) },
            AppError::Internal(_) => StatusInfo { code: 500, brief: None },
            AppError::Diesel(DbError::NotFound) => StatusInfo {
                code: 404,
                brief: Some("Resource not found.".to_string()),
            },
            AppError::Diesel(DbError::Other(_)) => StatusInfo {
                code: 500,
                brief: Some("Database error.".to_string()),
            },
            AppError::StatusError(s) => StatusInfo {
                code: s.code,
                brief: match &s.brief {
                    Some(b) => Some(b.clone()),
                    None => None,
                },
            },
            _ => StatusInfo { code: 500, brief: Some("Unknown error happened.".to_string()) },
        };
        ErrorReply { status, body }
    }
}

/// The id named by a path parameter: `400 missing id` when the route has
/// no such parameter, `400 invalid id` when it is not a number.
pub fn path_id(raw: Option<&str>) -> (r: Result<i64, StatusInfo>)
    ensures
        match raw {
            None => r matches Err(e) && e.code == 400 && opt_chars(e.brief) == Some("missing id"@),
            Some(s) => match parsed_i64(s@) {
                Some(id) => r == Ok::<i64, StatusInfo>(id),
                None => r matches Err(e) && e.code == 400 && opt_chars(e.brief) == Some("invalid id"@),
            },
        },
{
    match raw {
        None => Err(StatusInfo { code: 400, brief: Some("missing id".to_string()) }),
        Some(s) => match parse_i64(s) {
            Some(id) => Ok(id),
            None => Err(StatusInfo { code: 400, brief: Some("invalid id".to_string()) }),
        },
    }
}

} // verus!
