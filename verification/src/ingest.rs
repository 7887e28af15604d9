//! The decisions of event ingestion that precede and follow storage: what
//! an accepted event records about its session, the payload that an HTTP
//! hook request stands for, and the notification record with its push collapse id.

use vstd::prelude::*;
use axum::http::HeaderMap;
use crate::headers::{device_from_headers, device_info_from_headers, first_header_field, header_entries, header_field};
use crate::model::{opt_as_str, opt_chars, opt_string_chars, AppError, DeviceInfo, EventData, EventPayload};
use crate::notify::{notification_for, opt_triple_chars, should_notify};
use crate::session::{derive_session_status, extract_session_title, session_status_for, session_title_for};
use crate::text::{truncate_at_char_boundary, truncated_chars};
use crate::validate::{payload_rejection, rfc3339_accepts, validate_event_payload};

verus! {

/// A push notification's collapse id is the session id cut to this many bytes.
pub const PUSH_COLLAPSE_ID_MAX_BYTES: usize = 64;

/// An ASCII decimal digit.
pub open spec fn is_decimal_digit(c: char) -> bool {
    '0' <= c && c <= '9'
}

/// A year as chrono's RFC 3339 writer prints it: four digits for the years
/// 0 to 9999, otherwise a sign followed by at least four digits.
pub open spec fn is_year_text(y: Seq<char>) -> bool {
    ||| y.len() == 4 && forall|i: int| 0 <= i < 4 ==> is_decimal_digit(#[trigger] y[i])
    ||| y.len() >= 5 && (y[0] == '+' || y[0] == '-') && forall|i: int|
        1 <= i < y.len() ==> is_decimal_digit(#[trigger] y[i])
}

/// What follows the year: `-MM-DDTHH:MM:SS.mmmZ`, with digits where the
/// letters stand.
pub open spec fn is_time_tail_text(t: Seq<char>) -> bool {
    &&& t.len() == 20
    &&& t[0] == '-' && t[3] == '-' && t[6] == 'T' && t[9] == ':' && t[12] == ':'
    &&& t[15] == '.' && t[19] == 'Z'
    &&& forall|i: int|
        0 <= i < 19 && i != 0 && i != 3 && i != 6 && i != 9 && i != 12 && i != 15
            ==> is_decimal_digit(#[trigger] t[i])
}

/// The layout of every text that the server clock gives: a year, then
/// `-MM-DDTHH:MM:SS.mmmZ`.
pub open spec fn is_server_time_text(s: Seq<char>) -> bool {
    &&& s.len() >= 24
    &&& is_year_text(s.subrange(0, s.len() - 20))
    &&& is_time_tail_text(s.subrange(s.len() - 20, s.len() as int))
}

/// The current time as text, from
/// `chrono::Utc::now().to_rfc3339_opts(SecondsFormat::Millis, true)`.
/// Which instant it names is not stated: it is the clock's. What chrono's
/// `write_rfc3339` writes for every instant is stated: the year (four
/// digits for 0 to 9999, else signed), `-`, month, `-`, day, `T`, hours,
/// `:`, minutes, `:`, seconds, a dot with three digits of milliseconds, and
/// `Z` for the UTC offset. When the year has four digits (the text is 24
/// characters long) chrono's RFC 3339 parser accepts the text: it reads
/// exactly these fields, and the clock's date and time are valid ones with
/// no leap second. A year past 9999 is written with a sign and five digits,
/// which the parser refuses, so no more is stated. `Utc::now` panics when
/// the system clock reads before 1970.
#[verifier::external_body]
fn now_rfc3339_millis() -> (r: String)
    ensures
        is_server_time_text(r@),
        r@.len() == 24 ==> rfc3339_accepts(r@),
{
    chrono::Utc::now().to_rfc3339_opts(chrono::SecondsFormat::Millis, true)
}

/// What an accepted event records about its session besides the event
/// itself: when the server received it, the title it gives the session and
/// the status it moves the session to.
#[derive(Clone, Debug, PartialEq, Eq)]
pub struct IngestRecord {
    pub received_at: String,
    pub title: Option<String>,
    pub session_status: Option<String>,
}

/// Validates a payload and derives what it records about its session; this
/// is what ingestion decides before anything is stored.
pub fn prepare_ingest(payload: &EventPayload) -> (r: Result<IngestRecord, AppError>)
    ensures
        ({
            let rejection = payload_rejection(*payload, rfc3339_accepts(payload.timestamp@));
            match r {
                Ok(rec) => {
                    &&& rejection is None
                    &&& is_server_time_text(rec.received_at@)
                    &&& (rec.received_at@.len() == 24 ==> rfc3339_accepts(rec.received_at@))
                    &&& opt_string_chars(rec.title) == session_title_for(
                        payload.event.hook_event_name@,
                        opt_string_chars(payload.event.prompt),
                    )
                    &&& opt_string_chars(rec.session_status) == session_status_for(
                        payload.event.hook_event_name@,
                        opt_string_chars(payload.event.notification_type),
                    )
                },
                Err(AppError::BadRequest(m)) => rejection == Some(m@),
                Err(AppError::Internal(_)) => false,
            }
        }),
{
    match validate_event_payload(payload) {
        Ok(()) => {},
        Err(e) => {
            return Err(e);
        },
    }
    let received_at = now_rfc3339_millis();
    let title = extract_session_title(payload);
    let notification_type = opt_as_str(&payload.event.notification_type);
    let session_status = derive_session_status(
        payload.event.hook_event_name.as_str(),
        notification_type,
    );
    Ok(IngestRecord { received_at, title, session_status })
}

/// The payload that an HTTP hook request stands for: the device named by
/// its headers, the posted event, and the server's own timestamp.
pub fn http_hook_payload(headers: &HeaderMap, event: EventData) -> (r: Result<EventPayload, AppError>)
    ensures
        ({
            let expected = device_from_headers(header_entries(*headers));
            match r {
                Ok(p) => {
                    &&& expected == Ok::<(Seq<char>, Seq<char>, Seq<char>), Seq<char>>(
                        (p.device.device_id@, p.device.device_name@, p.device.platform@),
                    )
                    &&& p.event == event
                    &&& is_server_time_text(p.timestamp@)
                    &&& (p.timestamp@.len() == 24 ==> rfc3339_accepts(p.timestamp@))
                },
                Err(AppError::BadRequest(m)) => expected == Err::<
                    (Seq<char>, Seq<char>, Seq<char>),
                    Seq<char>,
                >(m@),
                Err(AppError::Internal(_)) => false,
            }
        }),
{
    let device = match device_info_from_headers(headers) {
        Ok(d) => d,
        Err(e) => {
            return Err(e);
        },
    };
    let timestamp = now_rfc3339_millis();
    Ok(EventPayload { device, event, timestamp })
}

/// The collapse id under which the push notifications of a session replace
/// one another: the session id cut to `PUSH_COLLAPSE_ID_MAX_BYTES` bytes.
pub fn push_collapse_id(session_id: &str) -> (r: String)
    ensures
        r@ == truncated_chars(session_id@, PUSH_COLLAPSE_ID_MAX_BYTES as int),
{
    truncate_at_char_boundary(session_id, PUSH_COLLAPSE_ID_MAX_BYTES)
}


proof fn lemma_first_header_field_nonempty(
    entries: Map<Seq<char>, Seq<Seq<u8>>>,
    names: Seq<Seq<char>>,
    from: int,
)
    ensures
        first_header_field(entries, names, from) matches Some(t) ==> t.len() > 0,
    decreases names.len() - from,
{
    if 0 <= from < names.len() && header_field(entries, names[from]) is None {
        lemma_first_header_field_nonempty(entries, names, from + 1);
    }
}

/// The payload of an HTTP hook request, once its headers name a device, is
/// refused only for a missing session id or hook event name: its device id
/// comes from a non-empty header and its timestamp from the server clock,
/// which the parser accepts while the clock's year has four digits.
pub proof fn http_hook_payload_refused_only_for_event_fields(
    entries: Map<Seq<char>, Seq<Seq<u8>>>,
    device: DeviceInfo,
    event: EventData,
    timestamp: String,
)
    requires
        device_from_headers(entries) == Ok::<(Seq<char>, Seq<char>, Seq<char>), Seq<char>>(
            (device.device_id@, device.device_name@, device.platform@),
        ),
        is_server_time_text(timestamp@),
        timestamp@.len() == 24 ==> rfc3339_accepts(timestamp@),
        timestamp@.len() == 24,
    ensures
        payload_rejection(
            (EventPayload { device, event, timestamp }),
            rfc3339_accepts(timestamp@),
        ) == (if event.session_id@.len() == 0 {
            Some("session_id is required"@)
        } else if event.hook_event_name@.len() == 0 {
            Some("hook_event_name is required"@)
        } else {
            None::<Seq<char>>
        }),
{
    lemma_first_header_field_nonempty(entries, crate::headers::device_id_header_names(), 0);
}


/// A lower-case hexadecimal digit.
pub open spec fn is_lower_hex_digit(c: char) -> bool {
    ('0' <= c && c <= '9') || ('a' <= c && c <= 'f')
}

/// The hyphenated lower-case text of a version 4 UUID: hyphens at 8, 13, 18
/// and 23, the version `4` at 14, one of `8`, `9`, `a`, `b` at 19 (the
/// variant), lower-case hex digits elsewhere.
pub open spec fn is_v4_uuid_text(s: Seq<char>) -> bool {
    &&& s.len() == 36
    &&& forall|i: int|
        0 <= i < 36 ==> {
            let c = #[trigger] s[i];
            if i == 8 || i == 13 || i == 18 || i == 23 {
                c == '-'
            } else if i == 14 {
                c == '4'
            } else if i == 19 {
                c == '8' || c == '9' || c == 'a' || c == 'b'
            } else {
                is_lower_hex_digit(c)
            }
        }
}

/// A fresh notification id: a random version 4 UUID in its hyphenated text
/// form, from `uuid::Uuid::new_v4().to_string()`. Which id comes out is
/// chance; its layout is not: `new_v4` sets the version nibble to 4 and the
/// variant bits to `10`, and `to_string` writes the hyphenated lower-case
/// form. `Uuid::new_v4` panics when the operating system's random
/// source fails.
#[verifier::external_body]
fn new_notification_id() -> (r: String)
    ensures
        is_v4_uuid_text(r@),
{
    uuid::Uuid::new_v4().to_string()
}

/// A notification ready to be stored and pushed.
#[derive(Clone, Debug, PartialEq, Eq)]
pub struct NotificationRecord {
    pub id: String,
    pub title: String,
    pub body: String,
    pub notification_type: String,
    pub collapse_id: String,
}

/// Turns the content that `should_notify` decided on into a notification
/// of `session_id`, under a fresh id and with the session's collapse id.
pub fn notification_record(session_id: &str, content: (String, String, String)) -> (r: NotificationRecord)
    ensures
        r.title == content.0,
        r.body == content.1,
        r.notification_type == content.2,
        r.collapse_id@ == truncated_chars(session_id@, PUSH_COLLAPSE_ID_MAX_BYTES as int),
        is_v4_uuid_text(r.id@),
{
    let (title, body, notification_type) = content;
    let id = new_notification_id();
    let collapse_id = push_collapse_id(session_id);
    NotificationRecord { id, title, body, notification_type, collapse_id }
}

/// The notification that a stored event raises: the rule of
/// `should_notify` applied to the event's own hook name, notification type,
/// message and tool name, and to the title stored for its session (which a
/// prompt of this very event may just have set).
pub fn notification_content(event: &EventData, stored_session_title: Option<&str>) -> (r: Option<
    (String, String, String),
>)
    ensures
        opt_triple_chars(r) == notification_for(
            event.hook_event_name@,
            opt_string_chars(event.notification_type),
            opt_string_chars(event.message),
            opt_chars(stored_session_title),
            opt_string_chars(event.tool_name),
        ),
{
    should_notify(
        event.hook_event_name.as_str(),
        opt_as_str(&event.notification_type),
        opt_as_str(&event.message),
        stored_session_title,
        opt_as_str(&event.tool_name),
    )
}

/// What follows a notification that the rule decided on, once the cooldown
/// has answered: the record to store, and whether to push it.
#[derive(Clone, Debug, PartialEq, Eq)]
pub struct NotificationPlan {
    pub record: NotificationRecord,
    pub push: bool,
}

/// A notification is stored exactly when the cooldown admits it, and pushed
/// when it is stored and a push client is configured.
pub fn plan_notification(
    session_id: &str,
    content: (String, String, String),
    cooldown_admits: bool,
    push_enabled: bool,
) -> (r: Option<NotificationPlan>)
    ensures
        r is Some <==> cooldown_admits,
        r matches Some(p) ==> {
            &&& p.push == push_enabled
            &&& p.record.title == content.0
            &&& p.record.body == content.1
            &&& p.record.notification_type == content.2
            &&& p.record.collapse_id@ == truncated_chars(session_id@, PUSH_COLLAPSE_ID_MAX_BYTES as int)
            &&& is_v4_uuid_text(p.record.id@)
        },
{
    if cooldown_admits {
        let record = notification_record(session_id, content);
        Some(NotificationPlan { record, push: push_enabled })
    } else {
        None
    }
}

} // verus!
