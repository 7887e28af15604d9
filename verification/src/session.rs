//! What an event says about its session: the status it moves the session
//! to, and the title that a submitted prompt gives it.

use vstd::prelude::*;
use crate::model::{opt_chars, opt_string_chars, EventPayload};
use crate::text::{lemma_truncated_chars, str_eq, truncate_at_char_boundary, truncated_chars};
use vstd::utf8::encode_utf8;

verus! {

/// A session title is the submitted prompt cut to this many bytes.
pub const SESSION_TITLE_MAX_BYTES: usize = 200;

/// The status that an event with this hook name and notification type
/// gives its session, if any.
pub open spec fn session_status_for(hook: Seq<char>, notification_type: Option<Seq<char>>) -> Option<Seq<char>> {
    if hook == "SessionStart"@ || hook == "UserPromptSubmit"@ || hook == "SubagentStart"@
        || hook == "SubagentStop"@ {
        Some("active"@)
    } else if hook == "Stop"@ {
        Some("waiting_for_input"@)
    } else if hook == "SessionEnd"@ {
        Some("ended"@)
    } else if hook == "PermissionRequest"@ {
        Some("waiting_for_permission"@)
    } else if hook == "Notification"@ {
        match notification_type {
            Some(t) => if t == "permission_prompt"@ {
                Some("waiting_for_permission"@)
            } else if t == "idle_prompt"@ {
                Some("idle"@)
            } else {
                None
            },
            None => None,
        }
    } else {
        None
    }
}

/// The title that an event gives its session: the prompt of a
/// `UserPromptSubmit`, cut to `SESSION_TITLE_MAX_BYTES` bytes.
pub open spec fn session_title_for(hook: Seq<char>, prompt: Option<Seq<char>>) -> Option<Seq<char>> {
    if hook == "UserPromptSubmit"@ {
        match prompt {
            Some(p) => Some(truncated_chars(p, SESSION_TITLE_MAX_BYTES as int)),
            None => None,
        }
    } else {
        None
    }
}

/// The session status that an event implies.
pub fn derive_session_status(hook_event_name: &str, notification_type: Option<&str>) -> (r: Option<String>)
    ensures
        opt_string_chars(r) == session_status_for(hook_event_name@, opt_chars(notification_type)),
{
    if str_eq(hook_event_name, "SessionStart") || str_eq(hook_event_name, "UserPromptSubmit")
        || str_eq(hook_event_name, "SubagentStart") || str_eq(hook_event_name, "SubagentStop") {
        Some("active".to_owned())
    } else if str_eq(hook_event_name, "Stop") {
        Some("waiting_for_input".to_owned())
    } else if str_eq(hook_event_name, "SessionEnd") {
        Some("ended".to_owned())
    } else if str_eq(hook_event_name, "PermissionRequest") {
        Some("waiting_for_permission".to_owned())
    } else if str_eq(hook_event_name, "Notification") {
        match notification_type {
            Some(t) => if str_eq(t, "permission_prompt") {
                Some("waiting_for_permission".to_owned())
            } else if str_eq(t, "idle_prompt") {
                Some("idle".to_owned())
            } else {
                None
            },
            None => None,
        }
    } else {
        None
    }
}

/// The session title carried by an event: present only on
/// `UserPromptSubmit` events with a prompt.
pub fn extract_session_title(payload: &EventPayload) -> (r: Option<String>)
    ensures
        opt_string_chars(r) == session_title_for(
            payload.event.hook_event_name@,
            opt_string_chars(payload.event.prompt),
        ),
{
    if str_eq(payload.event.hook_event_name.as_str(), "UserPromptSubmit") {
        match &payload.event.prompt {
            Some(p) => Some(truncate_at_char_boundary(p.as_str(), SESSION_TITLE_MAX_BYTES)),
            None => None,
        }
    } else {
        None
    }
}


/// A session title is a prefix of the submitted prompt that fits in
/// `SESSION_TITLE_MAX_BYTES` bytes of UTF-8, and the whole prompt when
/// the prompt fits.
pub proof fn session_title_is_bounded_prefix_of_prompt(hook: Seq<char>, prompt: Seq<char>)
    ensures
        session_title_for(hook, Some(prompt)) matches Some(t) ==> {
            &&& t == prompt.subrange(0, t.len() as int)
            &&& encode_utf8(t).len() <= SESSION_TITLE_MAX_BYTES
            &&& (encode_utf8(prompt).len() <= SESSION_TITLE_MAX_BYTES ==> t == prompt)
        },
{
    lemma_truncated_chars(prompt, SESSION_TITLE_MAX_BYTES as int);
}

/// An event that gives its session a title also marks the session active.
pub proof fn titled_event_marks_session_active(
    hook: Seq<char>,
    prompt: Option<Seq<char>>,
    notification_type: Option<Seq<char>>,
)
    ensures
        session_title_for(hook, prompt) is Some ==> session_status_for(hook, notification_type) == Some(
            "active"@,
        ),
{
}

/// Only the eight hook names that concern a session's progress move a
/// session: `SessionStart`, `UserPromptSubmit`, `SubagentStart`,
/// `SubagentStop`, `Stop`, `SessionEnd`, `PermissionRequest` and
/// `Notification`; any other hook name (such as `TaskCompleted` or
/// `TeammateIdle`) leaves the status unchanged. A session is marked ended
/// by `SessionEnd` and by nothing else.
pub proof fn session_status_only_for_session_hooks(hook: Seq<char>, notification_type: Option<Seq<char>>)
    ensures
        session_status_for(hook, notification_type) is Some ==> {
            ||| hook == "SessionStart"@
            ||| hook == "UserPromptSubmit"@
            ||| hook == "SubagentStart"@
            ||| hook == "SubagentStop"@
            ||| hook == "Stop"@
            ||| hook == "SessionEnd"@
            ||| hook == "PermissionRequest"@
            ||| hook == "Notification"@
        },
        session_status_for(hook, notification_type) == Some("ended"@) <==> hook == "SessionEnd"@,
{
    reveal_strlit("ended");
    reveal_strlit("active");
    reveal_strlit("waiting_for_input");
    reveal_strlit("waiting_for_permission");
    reveal_strlit("idle");
    reveal_strlit("SessionEnd");
    reveal_strlit("SessionStart");
    reveal_strlit("UserPromptSubmit");
    reveal_strlit("SubagentStart");
    reveal_strlit("SubagentStop");
    reveal_strlit("Stop");
    assert("ended"@.len() == 5);
    assert("active"@.len() == 6);
    assert("waiting_for_input"@.len() == 17);
    assert("waiting_for_permission"@.len() == 22);
    assert("idle"@.len() == 4);
    assert("SessionEnd"@.len() == 10);
    assert("SessionStart"@.len() == 12);
    assert("UserPromptSubmit"@.len() == 16);
    assert("SubagentStart"@.len() == 13);
    assert("SubagentStop"@.len() == 12);
    assert("Stop"@.len() == 4);
}

/// Every prompt submission titles its session, whatever the prompt's
/// length, and nothing else does: an event gives a title exactly when it is
/// a `UserPromptSubmit` carrying a prompt.
pub proof fn prompt_submission_always_titles(hook: Seq<char>, prompt: Option<Seq<char>>)
    ensures
        session_title_for(hook, prompt) is Some <==> (hook == "UserPromptSubmit"@ && prompt is Some),
{
}

} // verus!
