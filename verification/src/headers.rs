//! Device identity read from the request headers of an HTTP hook.

use vstd::prelude::*;
use axum::http::{HeaderMap, HeaderValue};
use crate::model::{opt_string_chars, AppError, DeviceInfo};
use crate::text::{trim_chars, trim_str};

verus! {

#[verifier::external_type_specification]
#[verifier::external_body]
#[verifier::reject_recursive_types(T)]
pub struct ExHeaderMap<T>(axum::http::HeaderMap<T>);

#[verifier::external_type_specification]
#[verifier::external_body]
pub struct ExHeaderValue(axum::http::HeaderValue);

/// What a header map holds: each header name, lower-cased as the map stores
/// it, with the bytes of its values in the order they were inserted.
pub uninterp spec fn header_entries(map: HeaderMap) -> Map<Seq<char>, Seq<Seq<u8>>>;

/// The bytes that a header value holds.
pub uninterp spec fn header_value_bytes(value: HeaderValue) -> Seq<u8>;

/// ASCII upper-case letters mapped to lower case, everything else kept.
pub open spec fn ascii_lowercase(s: Seq<char>) -> Seq<char> {
    Seq::new(
        s.len(),
        |i: int|
            if 'A' <= s[i] && s[i] <= 'Z' {
                ((s[i] as u32) + 32) as char
            } else {
                s[i]
            },
    )
}

/// A character that a header name may hold: the token characters of HTTP,
/// letters in either case.
pub open spec fn is_header_name_char(c: char) -> bool {
    ||| ('a' <= c && c <= 'z')
    ||| ('A' <= c && c <= 'Z')
    ||| ('0' <= c && c <= '9')
    ||| c == '!' || c == '#' || c == '$' || c == '%' || c == '&' || c == '\''
    ||| c == '*' || c == '+' || c == '-' || c == '.' || c == '^' || c == '_'
    ||| c == '`' || c == '|' || c == '~'
}

/// A valid header name: 1 to 65535 token characters.
pub open spec fn is_header_name(s: Seq<char>) -> bool {
    &&& 0 < s.len() <= 65535
    &&& forall|i: int| 0 <= i < s.len() ==> is_header_name_char(#[trigger] s[i])
}

/// A byte that `HeaderValue::to_str` accepts: visible ASCII or tab.
pub open spec fn is_visible_ascii(b: u8) -> bool {
    (32 <= b && b < 127) || b == 9
}

/// Every byte is visible ASCII or tab.
pub open spec fn all_visible_ascii(bytes: Seq<u8>) -> bool {
    forall|i: int| 0 <= i < bytes.len() ==> is_visible_ascii(#[trigger] bytes[i])
}

/// ASCII bytes read as characters.
pub open spec fn ascii_chars(bytes: Seq<u8>) -> Seq<char> {
    Seq::new(bytes.len(), |i: int| bytes[i] as char)
}

/// Looks `name` up with `HeaderMap::get`, which compares names without
/// regard to case and gives the first value stored under the name. A name
/// that is not a valid header name finds nothing: `get` refuses it while
/// parsing it (empty, too long, or a byte outside the token set) or, when it
/// is longer than 64 bytes, compares it without regard to case with the
/// stored names, which are all valid.
#[verifier::external_body]
fn header_get<'a>(headers: &'a HeaderMap, name: &str) -> (r: Option<&'a HeaderValue>)
    ensures
        ({
            let entries = header_entries(*headers);
            let key = ascii_lowercase(name@);
            match r {
                None => !is_header_name(name@) || !entries.contains_key(key),
                Some(v) => {
                    &&& is_header_name(name@)
                    &&& entries.contains_key(key)
                    &&& entries[key].len() > 0
                    &&& header_value_bytes(*v) == entries[key][0]
                },
            }
        }),
{
    headers.get(name)
}

/// Reads a header value as text with `HeaderValue::to_str`, which succeeds
/// exactly when every byte is visible ASCII or tab, and then yields those
/// bytes as characters.
#[verifier::external_body]
fn header_text<'a>(value: &'a HeaderValue) -> (r: Option<&'a str>)
    ensures
        r is Some <==> all_visible_ascii(header_value_bytes(*value)),
        r matches Some(s) ==> s@ == ascii_chars(header_value_bytes(*value)),
{
    value.to_str().ok()
}

/// The trimmed, non-empty text of the first value of header `name`, if
/// `name` is a valid header name, the header is present and its value is
/// visible ASCII.
pub open spec fn header_field(entries: Map<Seq<char>, Seq<Seq<u8>>>, name: Seq<char>) -> Option<Seq<char>> {
    let key = ascii_lowercase(name);
    if is_header_name(name) && entries.contains_key(key) && entries[key].len() > 0 && all_visible_ascii(entries[key][0])
        && trim_chars(ascii_chars(entries[key][0])).len() > 0 {
        Some(trim_chars(ascii_chars(entries[key][0])))
    } else {
        None
    }
}

/// The first `header_field` among `names[from..]`.
pub open spec fn first_header_field(
    entries: Map<Seq<char>, Seq<Seq<u8>>>,
    names: Seq<Seq<char>>,
    from: int,
) -> Option<Seq<char>>
    decreases names.len() - from,
{
    if from < 0 || from >= names.len() {
        None
    } else {
        match header_field(entries, names[from]) {
            Some(t) => Some(t),
            None => first_header_field(entries, names, from + 1),
        }
    }
}

/// The characters of each name.
pub open spec fn names_chars(names: Seq<&str>) -> Seq<Seq<char>> {
    names.map_values(|n: &str| n@)
}

/// The value of the first of `names` that is present with trimmed,
/// non-empty, visible-ASCII text, trimmed.
pub fn header_value(headers: &HeaderMap, names: &[&str]) -> (r: Option<String>)
    ensures
        opt_string_chars(r) == first_header_field(header_entries(*headers), names_chars(names@), 0),
{
    let ghost entries = header_entries(*headers);
    let ghost ns = names_chars(names@);
    let n = names.len();
    let mut i: usize = 0;
    while i < n
        invariant
            n == names@.len(),
            ns == names_chars(names@),
            entries == header_entries(*headers),
            i <= n,
            first_header_field(entries, ns, 0) == first_header_field(entries, ns, i as int),
        decreases n - i,
    {
        let name: &str = names[i];
        assert(ns[i as int] == name@);
        let found = header_get(headers, name);
        match found {
            Some(value) => {
                match header_text(value) {
                    Some(text) => {
                        let trimmed = trim_str(text);
                        if !trimmed.is_empty() {
                            return Some(trimmed.to_owned());
                        }
                    },
                    None => {},
                }
            },
            None => {},
        }
        i = i + 1;
    }
    None
}

/// The device id headers, in order of preference.
pub open spec fn device_id_header_names() -> Seq<Seq<char>> {
    seq!["X-Claudiator-Device-Id"@, "X-Device-Id"@]
}

/// The device name headers, in order of preference.
pub open spec fn device_name_header_names() -> Seq<Seq<char>> {
    seq!["X-Claudiator-Device-Name"@, "X-Device-Name"@]
}

/// The platform headers, in order of preference.
pub open spec fn platform_header_names() -> Seq<Seq<char>> {
    seq!["X-Claudiator-Platform"@, "X-Device-Platform"@]
}

/// The device that a header map names, or the message with which the
/// request is refused: the device id, name and platform are each required,
/// and checked in that order.
pub open spec fn device_from_headers(entries: Map<Seq<char>, Seq<Seq<u8>>>) -> Result<
    (Seq<char>, Seq<char>, Seq<char>),
    Seq<char>,
> {
    match first_header_field(entries, device_id_header_names(), 0) {
        None => Err("X-Claudiator-Device-Id is required"@),
        Some(id) => match first_header_field(entries, device_name_header_names(), 0) {
            None => Err("X-Claudiator-Device-Name is required"@),
            Some(name) => match first_header_field(entries, platform_header_names(), 0) {
                None => Err("X-Claudiator-Platform is required"@),
                Some(platform) => Ok((id, name, platform)),
            },
        },
    }
}

/// `r` is the outcome that `device_from_headers` prescribes.
pub open spec fn device_outcome(
    r: Result<DeviceInfo, AppError>,
    expected: Result<(Seq<char>, Seq<char>, Seq<char>), Seq<char>>,
) -> bool {
    match r {
        Ok(d) => expected == Ok::<(Seq<char>, Seq<char>, Seq<char>), Seq<char>>(
            (d.device_id@, d.device_name@, d.platform@),
        ),
        Err(AppError::BadRequest(m)) => expected == Err::<(Seq<char>, Seq<char>, Seq<char>), Seq<char>>(m@),
        Err(AppError::Internal(_)) => false,
    }
}

/// Reads the device identity of an HTTP hook request from its headers.
pub fn device_info_from_headers(headers: &HeaderMap) -> (r: Result<DeviceInfo, AppError>)
    ensures
        device_outcome(r, device_from_headers(header_entries(*headers))),
{
    let id_names: [&str; 2] = ["X-Claudiator-Device-Id", "X-Device-Id"];
    assert(names_chars(id_names@) =~= device_id_header_names());
    let device_id = match header_value(headers, id_names.as_slice()) {
        Some(v) => v,
        None => {
            return Err(AppError::BadRequest("X-Claudiator-Device-Id is required".to_owned()));
        },
    };
    let name_names: [&str; 2] = ["X-Claudiator-Device-Name", "X-Device-Name"];
    assert(names_chars(name_names@) =~= device_name_header_names());
    let device_name = match header_value(headers, name_names.as_slice()) {
        Some(v) => v,
        None => {
            return Err(AppError::BadRequest("X-Claudiator-Device-Name is required".to_owned()));
        },
    };
    let platform_names: [&str; 2] = ["X-Claudiator-Platform", "X-Device-Platform"];
    assert(names_chars(platform_names@) =~= platform_header_names());
    let platform = match header_value(headers, platform_names.as_slice()) {
        Some(v) => v,
        None => {
            return Err(AppError::BadRequest("X-Claudiator-Platform is required".to_owned()));
        },
    };
    Ok(DeviceInfo { device_id, device_name, platform })
}

/// A header that is present under a valid name, whose first value is
/// visible ASCII with non-blank text, is found, and what is found is that
/// text trimmed, whatever its length or content.
pub proof fn present_header_text_is_found(entries: Map<Seq<char>, Seq<Seq<u8>>>, name: Seq<char>)
    requires
        is_header_name(name),
        entries.contains_key(ascii_lowercase(name)),
        entries[ascii_lowercase(name)].len() > 0,
        all_visible_ascii(entries[ascii_lowercase(name)][0]),
        trim_chars(ascii_chars(entries[ascii_lowercase(name)][0])).len() > 0,
    ensures
        header_field(entries, name) == Some(trim_chars(ascii_chars(entries[ascii_lowercase(name)][0]))),
{
}

/// When the three `X-Claudiator-*` headers each carry non-blank text, the
/// device is read from them, whatever the legacy headers hold.
pub proof fn claudiator_headers_name_the_device(
    entries: Map<Seq<char>, Seq<Seq<u8>>>,
    id: Seq<char>,
    name: Seq<char>,
    platform: Seq<char>,
)
    requires
        header_field(entries, "X-Claudiator-Device-Id"@) == Some(id),
        header_field(entries, "X-Claudiator-Device-Name"@) == Some(name),
        header_field(entries, "X-Claudiator-Platform"@) == Some(platform),
    ensures
        device_from_headers(entries) == Ok::<(Seq<char>, Seq<char>, Seq<char>), Seq<char>>(
            (id, name, platform),
        ),
{
    assert(device_id_header_names()[0] == "X-Claudiator-Device-Id"@);
    assert(device_name_header_names()[0] == "X-Claudiator-Device-Name"@);
    assert(platform_header_names()[0] == "X-Claudiator-Platform"@);
}

} // verus!
