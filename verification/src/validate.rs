//! Validation of an incoming event payload.

use vstd::prelude::*;
use crate::model::{AppError, EventPayload};

verus! {

/// Whether chrono's RFC 3339 parser accepts the text `s`.
pub uninterp spec fn rfc3339_accepts(s: Seq<char>) -> bool;

/// Runs `chrono::DateTime::parse_from_rfc3339` on `s`; the result is `true`
/// exactly when the parser returns `Ok`. Which strings it accepts is chrono's
/// RFC 3339 grammar, named here `rfc3339_accepts` and not restated.
#[verifier::external_body]
fn parses_as_rfc3339(s: &str) -> (ok: bool)
    ensures
        ok == rfc3339_accepts(s@),
{
    chrono::DateTime::parse_from_rfc3339(s).is_ok()
}

/// The message with which a payload is refused, given whether its timestamp
/// parses as RFC 3339; `None` when it is accepted. The required fields are
/// checked in order: device id, session id, hook event name, timestamp.
pub open spec fn payload_rejection(payload: EventPayload, timestamp_ok: bool) -> Option<Seq<char>> {
    if payload.device.device_id@.len() == 0 {
        Some("device_id is required"@)
    } else if payload.event.session_id@.len() == 0 {
        Some("session_id is required"@)
    } else if payload.event.hook_event_name@.len() == 0 {
        Some("hook_event_name is required"@)
    } else if !timestamp_ok {
        Some("timestamp must be valid RFC 3339"@)
    } else {
        None
    }
}

/// `r` is the outcome that `payload_rejection` prescribes: `Ok` when there
/// is no rejection, else a `BadRequest` with the rejection's message.
pub open spec fn validation_outcome(r: Result<(), AppError>, rejection: Option<Seq<char>>) -> bool {
    match r {
        Ok(()) => rejection is None,
        Err(AppError::BadRequest(m)) => rejection == Some(m@),
        Err(AppError::Internal(_)) => false,
    }
}

/// Checks the required fields of a payload, given whether its timestamp
/// parsed as RFC 3339.
pub fn validate_event_fields(payload: &EventPayload, timestamp_ok: bool) -> (r: Result<(), AppError>)
    ensures
        validation_outcome(r, payload_rejection(*payload, timestamp_ok)),
{
    if payload.device.device_id.as_str().is_empty() {
        return Err(AppError::BadRequest("device_id is required".to_owned()));
    }
    if payload.event.session_id.as_str().is_empty() {
        return Err(AppError::BadRequest("session_id is required".to_owned()));
    }
    if payload.event.hook_event_name.as_str().is_empty() {
        return Err(AppError::BadRequest("hook_event_name is required".to_owned()));
    }
    if !timestamp_ok {
        return Err(AppError::BadRequest("timestamp must be valid RFC 3339".to_owned()));
    }
    Ok(())
}

/// Validates a payload: device id, session id and hook event name must be
/// non-empty and the timestamp must be RFC 3339.
pub fn validate_event_payload(payload: &EventPayload) -> (r: Result<(), AppError>)
    ensures
        validation_outcome(r, payload_rejection(*payload, rfc3339_accepts(payload.timestamp@))),
{
    let timestamp_ok = parses_as_rfc3339(payload.timestamp.as_str());
    validate_event_fields(payload, timestamp_ok)
}

} // verus!
