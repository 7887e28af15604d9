//! The values that an ingested hook event carries, and the error that
//! ingestion reports.

use vstd::prelude::*;

verus! {

/// The machine that sent an event.
#[derive(Clone, Debug, PartialEq, Eq)]
pub struct DeviceInfo {
    pub device_id: String,
    pub device_name: String,
    pub platform: String,
}

/// The seven fields of an agent hook event that the server keeps;
/// every other field of the incoming JSON is dropped before it gets here.
#[derive(Clone, Debug, PartialEq, Eq)]
pub struct EventData {
    pub session_id: String,
    pub hook_event_name: String,
    pub cwd: Option<String>,
    pub prompt: Option<String>,
    pub notification_type: Option<String>,
    pub tool_name: Option<String>,
    pub message: Option<String>,
}

/// An event as the hook client posts it: device, event and client timestamp.
#[derive(Clone, Debug, PartialEq, Eq)]
pub struct EventPayload {
    pub device: DeviceInfo,
    pub event: EventData,
    pub timestamp: String,
}

/// Errors of the ingestion path.
#[derive(Clone, Debug, PartialEq, Eq)]
pub enum AppError {
    /// The request is malformed; answered with 422 Unprocessable Entity.
    BadRequest(String),
    /// The server failed; answered with 500 Internal Server Error.
    Internal(String),
}

/// The characters of an optional string slice.
pub open spec fn opt_chars(o: Option<&str>) -> Option<Seq<char>> {
    match o {
        Some(s) => Some(s@),
        None => None,
    }
}

/// The characters of an optional string.
pub open spec fn opt_string_chars(o: Option<String>) -> Option<Seq<char>> {
    match o {
        Some(s) => Some(s@),
        None => None,
    }
}

/// Borrows an optional string as an optional slice.
pub fn opt_as_str(o: &Option<String>) -> (r: Option<&str>)
    ensures
        opt_chars(r) == opt_string_chars(*o),
{
    match o {
        Some(s) => Some(s.as_str()),
        None => None,
    }
}

impl AppError {
    /// The HTTP status with which the error is answered.
    pub fn status_code(&self) -> (code: u16)
        ensures
            code == (match self {
                AppError::BadRequest(_) => 422u16,
                AppError::Internal(_) => 500u16,
            }),
    {
        match self {
            AppError::BadRequest(_) => 422,
            AppError::Internal(_) => 500,
        }
    }

    /// The short code under `"error"` in the JSON body of the answer.
    pub fn code(&self) -> (r: &'static str)
        ensures
            r@ == (match self {
                AppError::BadRequest(_) => "bad_request"@,
                AppError::Internal(_) => "internal_error"@,
            }),
    {
        match self {
            AppError::BadRequest(_) => "bad_request",
            AppError::Internal(_) => "internal_error",
        }
    }

    /// The message under `"message"` in the JSON body of the answer.
    pub fn message(&self) -> (r: &str)
        ensures
            r@ == (match self {
                AppError::BadRequest(m) => m@,
                AppError::Internal(m) => m@,
            }),
    {
        match self {
            AppError::BadRequest(m) => m.as_str(),
            AppError::Internal(m) => m.as_str(),
        }
    }
}

/// The answer to a request that failed in the middleware stack: 408 with
/// "Request timed out" when the request ran out of time, else 500 with
/// "Internal server error".
pub fn timeout_error_reply(timed_out: bool) -> (r: (u16, &'static str))
    ensures
        r.0 == (if timed_out { 408u16 } else { 500u16 }),
        r.1@ == (if timed_out { "Request timed out"@ } else { "Internal server error"@ }),
{
    if timed_out {
        (408, "Request timed out")
    } else {
        (500, "Internal server error")
    }
}

} // verus!
