//! Which events raise a user notification, and what it says.

use vstd::prelude::*;
use vstd::string::*;
use crate::model::opt_chars;
use crate::session::session_status_for;
use crate::text::str_eq;

verus! {

/// The session title when it is present and non-empty, else `fallback`.
pub open spec fn title_or(session_title: Option<Seq<char>>, fallback: Seq<char>) -> Seq<char> {
    match session_title {
        Some(t) => if t.len() > 0 {
            t
        } else {
            fallback
        },
        None => fallback,
    }
}

/// The body of a permission notification.
pub open spec fn permission_body(tool_name: Option<Seq<char>>, message: Option<Seq<char>>) -> Seq<char> {
    match (tool_name, message) {
        (Some(tool), Some(msg)) => "Permission required: "@ + tool + " \u{2014} "@ + msg,
        (Some(tool), None) => "Permission required: "@ + tool,
        (None, Some(msg)) => "Permission required: "@ + msg,
        (None, None) => "A session needs permission to continue"@,
    }
}

/// `message`, or `default` when there is none.
pub open spec fn message_or(message: Option<Seq<char>>, default: Seq<char>) -> Seq<char> {
    match message {
        Some(m) => m,
        None => default,
    }
}

/// The permission notification: title, body and type.
pub open spec fn permission_notification(
    session_title: Option<Seq<char>>,
    tool_name: Option<Seq<char>>,
    message: Option<Seq<char>>,
) -> (Seq<char>, Seq<char>, Seq<char>) {
    (
        title_or(session_title, "Permission Required"@),
        permission_body(tool_name, message),
        "permission_prompt"@,
    )
}

/// The notification (title, body, type) that an event raises, if any:
/// `Stop` gives type `stop`; `Notification` with type `permission_prompt`
/// or `idle_prompt` gives that type; `PermissionRequest` gives
/// `permission_prompt`; nothing else raises one.
pub open spec fn notification_for(
    hook: Seq<char>,
    notification_type: Option<Seq<char>>,
    message: Option<Seq<char>>,
    session_title: Option<Seq<char>>,
    tool_name: Option<Seq<char>>,
) -> Option<(Seq<char>, Seq<char>, Seq<char>)> {
    if hook == "Stop"@ {
        Some(
            (
                title_or(session_title, "Session Stopped"@),
                "Session stopped: "@ + message_or(message, "No reason given"@),
                "stop"@,
            ),
        )
    } else if hook == "Notification"@ {
        match notification_type {
            Some(t) => if t == "permission_prompt"@ {
                Some(permission_notification(session_title, tool_name, message))
            } else if t == "idle_prompt"@ {
                Some(
                    (
                        title_or(session_title, "Session Idle"@),
                        "Session idle: "@ + message_or(message, "Waiting for input"@),
                        "idle_prompt"@,
                    ),
                )
            } else {
                None
            },
            None => None,
        }
    } else if hook == "PermissionRequest"@ {
        Some(permission_notification(session_title, tool_name, message))
    } else {
        None
    }
}

/// The characters of an optional triple of strings.
pub open spec fn opt_triple_chars(o: Option<(String, String, String)>) -> Option<(Seq<char>, Seq<char>, Seq<char>)> {
    match o {
        Some((a, b, c)) => Some((a@, b@, c@)),
        None => None,
    }
}

/// The session title when present and non-empty, otherwise `fallback`.
fn title_from_session(session_title: Option<&str>, fallback: &str) -> (r: String)
    ensures
        r@ == title_or(opt_chars(session_title), fallback@),
{
    match session_title {
        Some(t) => if t.is_empty() {
            fallback.to_owned()
        } else {
            t.to_owned()
        },
        None => fallback.to_owned(),
    }
}

fn message_or_default<'a>(message: Option<&'a str>, default: &'a str) -> (r: &'a str)
    ensures
        r@ == message_or(opt_chars(message), default@),
{
    match message {
        Some(m) => m,
        None => default,
    }
}

fn permission_body_text(tool_name: Option<&str>, message: Option<&str>) -> (r: String)
    ensures
        r@ == permission_body(opt_chars(tool_name), opt_chars(message)),
{
    match (tool_name, message) {
        (Some(tool), Some(msg)) => "Permission required: ".to_owned().concat(tool).concat(
            " \u{2014} ",
        ).concat(msg),
        (Some(tool), None) => "Permission required: ".to_owned().concat(tool),
        (None, Some(msg)) => "Permission required: ".to_owned().concat(msg),
        (None, None) => "A session needs permission to continue".to_owned(),
    }
}

/// Decides whether an event raises a notification and builds its title,
/// body and type.
pub fn should_notify(
    hook_event_name: &str,
    notification_type: Option<&str>,
    message: Option<&str>,
    session_title: Option<&str>,
    tool_name: Option<&str>,
) -> (r: Option<(String, String, String)>)
    ensures
        opt_triple_chars(r) == notification_for(
            hook_event_name@,
            opt_chars(notification_type),
            opt_chars(message),
            opt_chars(session_title),
            opt_chars(tool_name),
        ),
{
    if str_eq(hook_event_name, "Stop") {
        let title = title_from_session(session_title, "Session Stopped");
        let body = "Session stopped: ".to_owned().concat(
            message_or_default(message, "No reason given"),
        );
        Some((title, body, "stop".to_owned()))
    } else if str_eq(hook_event_name, "Notification") {
        match notification_type {
            Some(t) => if str_eq(t, "permission_prompt") {
                let title = title_from_session(session_title, "Permission Required");
                let body = permission_body_text(tool_name, message);
                Some((title, body, "permission_prompt".to_owned()))
            } else if str_eq(t, "idle_prompt") {
                let title = title_from_session(session_title, "Session Idle");
                let body = "Session idle: ".to_owned().concat(
                    message_or_default(message, "Waiting for input"),
                );
                Some((title, body, "idle_prompt".to_owned()))
            } else {
                None
            },
            None => None,
        }
    } else if str_eq(hook_event_name, "PermissionRequest") {
        let title = title_from_session(session_title, "Permission Required");
        let body = permission_body_text(tool_name, message);
        Some((title, body, "permission_prompt".to_owned()))
    } else {
        None
    }
}


/// The hook names and notification types that the rules compare against
/// are pairwise distinct.
proof fn lemma_rule_literals_distinct()
    ensures
        "Stop"@ != "Notification"@,
        "Stop"@ != "PermissionRequest"@,
        "Notification"@ != "PermissionRequest"@,
        "Stop"@ != "SessionStart"@,
        "Stop"@ != "UserPromptSubmit"@,
        "Stop"@ != "SubagentStart"@,
        "Stop"@ != "SubagentStop"@,
        "Notification"@ != "SessionStart"@,
        "Notification"@ != "UserPromptSubmit"@,
        "Notification"@ != "SubagentStart"@,
        "Notification"@ != "SubagentStop"@,
        "Notification"@ != "SessionEnd"@,
        "PermissionRequest"@ != "SessionStart"@,
        "PermissionRequest"@ != "UserPromptSubmit"@,
        "PermissionRequest"@ != "SubagentStart"@,
        "PermissionRequest"@ != "SubagentStop"@,
        "PermissionRequest"@ != "SessionEnd"@,
        "permission_prompt"@ != "idle_prompt"@,
        "stop"@ != "permission_prompt"@,
        "stop"@ != "idle_prompt"@,
        "idle_prompt"@ != "permission_prompt"@,
{
    reveal_strlit("Stop");
    reveal_strlit("Notification");
    reveal_strlit("PermissionRequest");
    reveal_strlit("SessionStart");
    reveal_strlit("UserPromptSubmit");
    reveal_strlit("SubagentStart");
    reveal_strlit("SubagentStop");
    reveal_strlit("SessionEnd");
    reveal_strlit("permission_prompt");
    reveal_strlit("idle_prompt");
    reveal_strlit("stop");
    assert("Stop"@.len() == 4);
    assert("Notification"@.len() == 12 && "Notification"@[0] == 'N');
    assert("PermissionRequest"@.len() == 17);
    assert("SessionStart"@.len() == 12 && "SessionStart"@[0] == 'S');
    assert("UserPromptSubmit"@.len() == 16);
    assert("SubagentStart"@.len() == 13);
    assert("SubagentStop"@.len() == 12 && "SubagentStop"@[0] == 'S');
    assert("SessionEnd"@.len() == 10);
    assert("permission_prompt"@.len() == 17);
    assert("idle_prompt"@.len() == 11);
    assert("stop"@.len() == 4);
}

/// The status a session is in after an event that raised a notification of
/// type `t`.
pub open spec fn status_for_notification_type(t: Seq<char>) -> Seq<char> {
    if t == "stop"@ {
        "waiting_for_input"@
    } else if t == "permission_prompt"@ {
        "waiting_for_permission"@
    } else {
        "idle"@
    }
}

/// Every event that raises a notification also moves its session into a
/// status that waits on the user: a stop notification goes with
/// `waiting_for_input`, a permission notification with
/// `waiting_for_permission`, an idle notification with `idle`.
pub proof fn notification_goes_with_waiting_status(
    hook: Seq<char>,
    notification_type: Option<Seq<char>>,
    message: Option<Seq<char>>,
    session_title: Option<Seq<char>>,
    tool_name: Option<Seq<char>>,
)
    ensures
        notification_for(hook, notification_type, message, session_title, tool_name) matches Some(
            (_, _, t),
        ) ==> session_status_for(hook, notification_type) == Some(status_for_notification_type(t)),
{
    lemma_rule_literals_distinct();
}

/// Whether an event raises a notification, and of which type, depends on
/// its hook name and notification type alone, never on its message, tool
/// name or the session title.
pub proof fn notification_kind_depends_on_event_kind_only(
    hook: Seq<char>,
    notification_type: Option<Seq<char>>,
    message1: Option<Seq<char>>,
    session_title1: Option<Seq<char>>,
    tool_name1: Option<Seq<char>>,
    message2: Option<Seq<char>>,
    session_title2: Option<Seq<char>>,
    tool_name2: Option<Seq<char>>,
)
    ensures
        (notification_for(hook, notification_type, message1, session_title1, tool_name1) is Some)
            == (notification_for(hook, notification_type, message2, session_title2, tool_name2) is Some),
        notification_for(hook, notification_type, message1, session_title1, tool_name1) matches Some(a)
            ==> notification_for(hook, notification_type, message2, session_title2, tool_name2) matches Some(b)
            && a.2 == b.2,
{
}

/// A `PermissionRequest` event raises the same notification as a
/// `Notification` event of type `permission_prompt`.
pub proof fn permission_request_notifies_like_permission_prompt(
    notification_type: Option<Seq<char>>,
    message: Option<Seq<char>>,
    session_title: Option<Seq<char>>,
    tool_name: Option<Seq<char>>,
)
    ensures
        notification_for("PermissionRequest"@, notification_type, message, session_title, tool_name)
            == notification_for(
            "Notification"@,
            Some("permission_prompt"@),
            message,
            session_title,
            tool_name,
        ),
        notification_for("PermissionRequest"@, notification_type, message, session_title, tool_name)
            is Some,
{
    lemma_rule_literals_distinct();
}

/// A notification's title is the session title when that is non-empty, and
/// never empty: without a session title a fixed title per type stands in.
pub proof fn notification_title_never_empty(
    hook: Seq<char>,
    notification_type: Option<Seq<char>>,
    message: Option<Seq<char>>,
    session_title: Option<Seq<char>>,
    tool_name: Option<Seq<char>>,
)
    ensures
        notification_for(hook, notification_type, message, session_title, tool_name) matches Some(
            (title, _, _),
        ) ==> title.len() > 0 && (session_title matches Some(s) ==> (s.len() > 0 ==> title == s)),
{
    reveal_strlit("Session Stopped");
    reveal_strlit("Permission Required");
    reveal_strlit("Session Idle");
    assert("Session Stopped"@.len() > 0);
    assert("Permission Required"@.len() > 0);
    assert("Session Idle"@.len() > 0);
}

} // verus!
