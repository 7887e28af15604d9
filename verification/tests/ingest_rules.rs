use axum::http::{HeaderMap, HeaderValue};
use claudiator_server::headers::{device_info_from_headers, header_value};
use claudiator_server::ingest::{
    http_hook_payload, notification_content, plan_notification, prepare_ingest, push_collapse_id,
};
use claudiator_server::model::{timeout_error_reply, AppError, DeviceInfo, EventData, EventPayload};
use claudiator_server::notify::should_notify;
use claudiator_server::push::{push_follow_up, ApnsPushResult, PushDispatch, PushFollowUp, PushTarget};
use claudiator_server::session::{derive_session_status, extract_session_title};
use claudiator_server::state::{retention_cleanup_due, AppState, CleanupClaim, RetentionPlan};
use claudiator_server::text::{str_eq, trim_str, truncate_at_char_boundary};
use claudiator_server::validate::{validate_event_fields, validate_event_payload};
use std::sync::atomic::{AtomicU64, Ordering};

fn event(session_id: &str, hook: &str) -> EventData {
    EventData {
        session_id: session_id.to_string(),
        hook_event_name: hook.to_string(),
        cwd: None,
        prompt: None,
        notification_type: None,
        tool_name: None,
        message: None,
    }
}

fn payload(device_id: &str, ev: EventData, timestamp: &str) -> EventPayload {
    EventPayload {
        device: DeviceInfo {
            device_id: device_id.to_string(),
            device_name: "Test Device".to_string(),
            platform: "macos".to_string(),
        },
        event: ev,
        timestamp: timestamp.to_string(),
    }
}

fn state(last_cleanup: u64) -> AppState {
    AppState {
        master_key: "test-key".to_string(),
        version: AtomicU64::new(0),
        notification_version: AtomicU64::new(0),
        last_cleanup: AtomicU64::new(last_cleanup),
        retention_events_days: 7,
        retention_sessions_days: 7,
        retention_devices_days: 30,
    }
}

fn triple(r: Option<(String, String, String)>) -> Option<(String, String, String)> {
    r
}

// ── text ────────────────────────────────────────────────────────────────

#[test]
fn str_eq_compares_characters() {
    assert!(str_eq("Stop", "Stop"));
    assert!(!str_eq("Stop", "stop"));
    assert!(!str_eq("Stop", "Stopped"));
    assert!(str_eq("", ""));
}

#[test]
fn trim_removes_unicode_white_space_at_both_ends() {
    assert_eq!(trim_str("  dev-1\t"), "dev-1");
    assert_eq!(trim_str("\u{3000}a b\u{a0}"), "a b");
    assert_eq!(trim_str(" \t "), "");
    assert_eq!(trim_str("x"), "x");
}

#[test]
fn truncate_keeps_short_strings_whole() {
    assert_eq!(truncate_at_char_boundary("hello", 200), "hello");
    assert_eq!(truncate_at_char_boundary("hello", 5), "hello");
}

#[test]
fn truncate_cuts_long_ascii_to_the_budget() {
    let s = "a".repeat(250);
    assert_eq!(truncate_at_char_boundary(&s, 200), "a".repeat(200));
    assert_eq!(truncate_at_char_boundary("abcdef", 0), "");
}

#[test]
fn truncate_never_splits_a_character() {
    // "é" is two bytes; a cut after 3 bytes must fall back to 2.
    assert_eq!(truncate_at_char_boundary("aéb", 2), "a");
    assert_eq!(truncate_at_char_boundary("aéb", 3), "aé");
    // "—" is three bytes.
    assert_eq!(truncate_at_char_boundary("——", 5), "—");
}

#[test]
fn truncate_is_idempotent() {
    let s = "ünïcödé prompt ".repeat(20);
    let once = truncate_at_char_boundary(&s, 200);
    assert!(once.len() <= 200);
    assert!(s.starts_with(&once));
    assert_eq!(truncate_at_char_boundary(&once, 200), once);
}

// ── session status and title ───────────────────────────────────────────

#[test]
fn derive_session_status_maps_each_hook() {
    for hook in ["SessionStart", "UserPromptSubmit", "SubagentStart", "SubagentStop"] {
        assert_eq!(derive_session_status(hook, None), Some("active".to_string()));
    }
    assert_eq!(derive_session_status("Stop", None), Some("waiting_for_input".to_string()));
    assert_eq!(derive_session_status("SessionEnd", None), Some("ended".to_string()));
    assert_eq!(
        derive_session_status("PermissionRequest", None),
        Some("waiting_for_permission".to_string())
    );
    assert_eq!(
        derive_session_status("Notification", Some("permission_prompt")),
        Some("waiting_for_permission".to_string())
    );
    assert_eq!(derive_session_status("Notification", Some("idle_prompt")), Some("idle".to_string()));
    assert_eq!(derive_session_status("Notification", Some("auth_success")), None);
    assert_eq!(derive_session_status("Notification", None), None);
    assert_eq!(derive_session_status("TeammateIdle", None), None);
    assert_eq!(derive_session_status("session-start", None), None);
}

#[test]
fn extract_session_title_only_from_prompt_submit() {
    let mut ev = event("sess-1", "UserPromptSubmit");
    ev.prompt = Some("Fix the login bug".to_string());
    let p = payload("dev-1", ev, "2024-01-01T00:00:00Z");
    assert_eq!(extract_session_title(&p), Some("Fix the login bug".to_string()));

    let mut ev = event("sess-1", "Stop");
    ev.prompt = Some("Fix the login bug".to_string());
    assert_eq!(extract_session_title(&payload("dev-1", ev, "2024-01-01T00:00:00Z")), None);

    let ev = event("sess-1", "UserPromptSubmit");
    assert_eq!(extract_session_title(&payload("dev-1", ev, "2024-01-01T00:00:00Z")), None);
}

#[test]
fn extract_session_title_truncates_to_200_bytes() {
    let mut ev = event("sess-1", "UserPromptSubmit");
    ev.prompt = Some("é".repeat(150));
    let title = extract_session_title(&payload("dev-1", ev, "2024-01-01T00:00:00Z")).unwrap();
    assert_eq!(title, "é".repeat(100));
}

// ── notifications ──────────────────────────────────────────────────────

#[test]
fn stop_notification_uses_session_title() {
    let r = should_notify("Stop", None, Some("Max turns reached"), Some("Fix the login bug"), None);
    assert_eq!(
        triple(r),
        Some((
            "Fix the login bug".to_string(),
            "Session stopped: Max turns reached".to_string(),
            "stop".to_string()
        ))
    );
}

#[test]
fn stop_notification_falls_back_without_session_title() {
    let r = should_notify("Stop", None, Some("User interrupted"), None, None).unwrap();
    assert_eq!(r.0, "Session Stopped");
    assert_eq!(r.1, "Session stopped: User interrupted");
    assert_eq!(r.2, "stop");
}

#[test]
fn permission_notification_names_tool_and_message() {
    let r = should_notify(
        "PermissionRequest",
        None,
        Some("run npm test"),
        Some("Refactor auth module"),
        Some("Bash"),
    )
    .unwrap();
    assert_eq!(r.0, "Refactor auth module");
    assert_eq!(r.1, "Permission required: Bash \u{2014} run npm test");
    assert_eq!(r.2, "permission_prompt");
}

#[test]
fn empty_session_title_falls_back() {
    let r = should_notify("Stop", None, None, Some(""), None).unwrap();
    assert_eq!(r.0, "Session Stopped");
    assert_eq!(r.1, "Session stopped: No reason given");
}

#[test]
fn permission_bodies_for_each_combination() {
    let body = |tool: Option<&str>, msg: Option<&str>| {
        should_notify("Notification", Some("permission_prompt"), msg, None, tool).unwrap()
    };
    assert_eq!(body(Some("Bash"), None).1, "Permission required: Bash");
    assert_eq!(body(None, Some("run it")).1, "Permission required: run it");
    assert_eq!(body(None, None).1, "A session needs permission to continue");
    assert_eq!(body(None, None).0, "Permission Required");
    assert_eq!(body(None, None).2, "permission_prompt");
}

#[test]
fn idle_prompt_notification() {
    let r = should_notify("Notification", Some("idle_prompt"), None, None, None).unwrap();
    assert_eq!(r, ("Session Idle".to_string(), "Session idle: Waiting for input".to_string(), "idle_prompt".to_string()));
    let r = should_notify("Notification", Some("idle_prompt"), Some("waiting"), Some("T"), None).unwrap();
    assert_eq!(r.0, "T");
    assert_eq!(r.1, "Session idle: waiting");
}

#[test]
fn other_events_raise_no_notification() {
    assert_eq!(should_notify("SessionStart", None, Some("m"), None, None), None);
    assert_eq!(should_notify("Notification", Some("auth_success"), Some("m"), None, None), None);
    assert_eq!(should_notify("Notification", None, None, None, None), None);
    assert_eq!(should_notify("TaskCompleted", None, None, None, None), None);
}

// ── validation ─────────────────────────────────────────────────────────

#[test]
fn valid_payload_passes_validation() {
    let p = payload("dev-1", event("sess-1", "session-start"), "2024-01-01T00:00:00Z");
    assert_eq!(validate_event_payload(&p), Ok(()));
}

#[test]
fn empty_device_id_is_refused() {
    let p = payload("", event("sess-1", "session-start"), "2024-01-01T00:00:00Z");
    let err = validate_event_payload(&p).unwrap_err();
    assert_eq!(err, AppError::BadRequest("device_id is required".to_string()));
    assert_eq!(err.status_code(), 422);
}

#[test]
fn validation_checks_fields_in_order() {
    let p = payload("dev-1", event("", ""), "nonsense");
    assert_eq!(
        validate_event_payload(&p),
        Err(AppError::BadRequest("session_id is required".to_string()))
    );
    let p = payload("dev-1", event("s", ""), "nonsense");
    assert_eq!(
        validate_event_payload(&p),
        Err(AppError::BadRequest("hook_event_name is required".to_string()))
    );
}

#[test]
fn validation_rejects_a_timestamp_that_is_not_rfc3339() {
    for ts in ["nonsense", "2024-01-01", "2024-01-01 00:00:00", ""] {
        let p = payload("dev-1", event("s", "Stop"), ts);
        assert_eq!(
            validate_event_payload(&p),
            Err(AppError::BadRequest("timestamp must be valid RFC 3339".to_string()))
        );
    }
    let p = payload("dev-1", event("s", "Stop"), "2025-01-15T10:30:00.123+02:00");
    assert_eq!(validate_event_payload(&p), Ok(()));
}

#[test]
fn validate_event_fields_takes_the_timestamp_verdict() {
    let p = payload("dev-1", event("s", "Stop"), "whatever");
    assert_eq!(validate_event_fields(&p, true), Ok(()));
    assert!(validate_event_fields(&p, false).is_err());
}

#[test]
fn internal_errors_answer_500() {
    assert_eq!(AppError::Internal("db".to_string()).status_code(), 500);
}

// ── headers ────────────────────────────────────────────────────────────

fn headers(pairs: &[(&'static str, &str)]) -> HeaderMap {
    let mut h = HeaderMap::new();
    for (k, v) in pairs {
        h.append(*k, HeaderValue::from_str(v).unwrap());
    }
    h
}

#[test]
fn device_read_from_claudiator_headers() {
    let h = headers(&[
        ("X-Claudiator-Device-Id", "dev-http-1"),
        ("X-Claudiator-Device-Name", "HTTP Device"),
        ("X-Claudiator-Platform", "mac"),
    ]);
    let d = device_info_from_headers(&h).unwrap();
    assert_eq!(d.device_id, "dev-http-1");
    assert_eq!(d.device_name, "HTTP Device");
    assert_eq!(d.platform, "mac");
}

#[test]
fn missing_device_id_header_is_refused() {
    let h = headers(&[("X-Claudiator-Device-Name", "HTTP Device"), ("X-Claudiator-Platform", "mac")]);
    let err = device_info_from_headers(&h).unwrap_err();
    assert_eq!(err, AppError::BadRequest("X-Claudiator-Device-Id is required".to_string()));
    assert_eq!(err.status_code(), 422);
}

#[test]
fn missing_name_and_platform_are_reported() {
    let h = headers(&[("X-Claudiator-Device-Id", "d"), ("X-Claudiator-Platform", "mac")]);
    assert_eq!(
        device_info_from_headers(&h),
        Err(AppError::BadRequest("X-Claudiator-Device-Name is required".to_string()))
    );
    let h = headers(&[("X-Claudiator-Device-Id", "d"), ("X-Claudiator-Device-Name", "n")]);
    assert_eq!(
        device_info_from_headers(&h),
        Err(AppError::BadRequest("X-Claudiator-Platform is required".to_string()))
    );
}

#[test]
fn legacy_headers_are_used_when_the_preferred_ones_are_absent_or_blank() {
    let h = headers(&[
        ("X-Claudiator-Device-Id", "   "),
        ("X-Device-Id", " legacy-id "),
        ("x-device-name", "Legacy Name"),
        ("X-Device-Platform", "linux"),
    ]);
    let d = device_info_from_headers(&h).unwrap();
    assert_eq!(d.device_id, "legacy-id");
    assert_eq!(d.device_name, "Legacy Name");
    assert_eq!(d.platform, "linux");
}

#[test]
fn preferred_header_wins_over_legacy() {
    let h = headers(&[("X-Device-Id", "old"), ("x-claudiator-device-id", "new")]);
    assert_eq!(header_value(&h, &["X-Claudiator-Device-Id", "X-Device-Id"]), Some("new".to_string()));
}

#[test]
fn header_values_that_are_not_visible_ascii_count_as_absent() {
    let mut h = HeaderMap::new();
    h.insert("X-Claudiator-Device-Id", HeaderValue::from_bytes(b"caf\xc3\xa9").unwrap());
    h.insert("X-Device-Id", HeaderValue::from_static("fallback"));
    assert_eq!(header_value(&h, &["X-Claudiator-Device-Id", "X-Device-Id"]), Some("fallback".to_string()));
    assert_eq!(header_value(&h, &["X-Claudiator-Device-Id"]), None);
}

#[test]
fn first_of_repeated_header_values_is_used() {
    let h = headers(&[("X-Claudiator-Platform", "mac"), ("X-Claudiator-Platform", "linux")]);
    assert_eq!(header_value(&h, &["X-Claudiator-Platform"]), Some("mac".to_string()));
}

// ── ingestion decisions ────────────────────────────────────────────────

#[test]
fn prepare_ingest_records_title_status_and_receipt_time() {
    let mut ev = event("sess-1", "UserPromptSubmit");
    ev.prompt = Some("Fix the login bug".to_string());
    let rec = prepare_ingest(&payload("dev-1", ev, "2024-01-01T00:00:00Z")).unwrap();
    assert_eq!(rec.title, Some("Fix the login bug".to_string()));
    assert_eq!(rec.session_status, Some("active".to_string()));
    assert!(chrono::DateTime::parse_from_rfc3339(&rec.received_at).is_ok());
    assert!(rec.received_at.ends_with('Z'));
}

#[test]
fn prepare_ingest_refuses_invalid_payloads() {
    let p = payload("", event("sess-1", "Stop"), "2024-01-01T00:00:00Z");
    assert_eq!(prepare_ingest(&p), Err(AppError::BadRequest("device_id is required".to_string())));
    let p = payload("d", event("sess-1", "Stop"), "yesterday");
    assert!(prepare_ingest(&p).is_err());
}

#[test]
fn http_hook_payload_uses_headers_and_server_time() {
    let h = headers(&[
        ("X-Claudiator-Device-Id", "dev-http-1"),
        ("X-Claudiator-Device-Name", "HTTP Device"),
        ("X-Claudiator-Platform", "mac"),
    ]);
    let ev = event("sess-http-1", "SessionStart");
    let p = http_hook_payload(&h, ev.clone()).unwrap();
    assert_eq!(p.event, ev);
    assert_eq!(p.device.device_id, "dev-http-1");
    assert!(validate_event_payload(&p).is_ok());

    let missing = headers(&[("X-Claudiator-Device-Name", "n")]);
    assert_eq!(
        http_hook_payload(&missing, ev),
        Err(AppError::BadRequest("X-Claudiator-Device-Id is required".to_string()))
    );
}

#[test]
fn collapse_id_is_session_id_cut_to_64_bytes() {
    assert_eq!(push_collapse_id("sess-1"), "sess-1");
    let long = "s".repeat(100);
    assert_eq!(push_collapse_id(&long), "s".repeat(64));
}

// ── retention cleanup ──────────────────────────────────────────────────

#[test]
fn cleanup_due_after_five_minutes() {
    assert!(retention_cleanup_due(1_000, 700));
    assert!(!retention_cleanup_due(1_000, 701));
    assert!(!retention_cleanup_due(100, 5_000));
    assert!(retention_cleanup_due(300, 0));
}

#[test]
fn claim_hands_out_the_plan_and_the_time_to_record() {
    let s = state(0);
    let claim = s.claim_retention_cleanup(0, 10_000);
    assert_eq!(claim.plan, Some(RetentionPlan { events_days: 7, sessions_days: 7, devices_days: 30 }));
    assert_eq!(claim.record, Some(10_000));
    let again = s.claim_retention_cleanup(10_000, 10_299);
    assert_eq!(again, CleanupClaim { plan: None, record: None });
    assert!(s.claim_retention_cleanup(10_000, 10_300).plan.is_some());
    assert_eq!(s.claim_retention_cleanup(20_000, 100), CleanupClaim { plan: None, record: None });
}

#[test]
fn successive_requests_clean_up_at_most_once_per_interval() {
    let s = state(0);
    let mut last = s.last_cleanup.load(Ordering::Relaxed);
    let mut started = Vec::new();
    for now in [1_000u64, 1_100, 1_299, 1_300, 1_599, 1_600] {
        let claim = s.claim_retention_cleanup(last, now);
        if let Some(t) = claim.record {
            last = t;
        }
        if claim.plan.is_some() {
            started.push(now);
        }
    }
    assert_eq!(started, vec![1_000, 1_300, 1_600]);
}

#[test]
fn schedule_retention_cleanup_reads_the_clock() {
    let s = state(0);
    let claim = s.schedule_retention_cleanup(0);
    let now = claim.record.expect("the clock is past 300 s after 1970");
    assert!(claim.plan.is_some());
    assert!(now >= 1_700_000_000);
    assert_eq!(s.schedule_retention_cleanup(now), CleanupClaim { plan: None, record: None });
}

// ── push dispatch ──────────────────────────────────────────────────────

#[test]
fn push_follow_up_per_answer() {
    assert_eq!(push_follow_up(&ApnsPushResult::Success), PushFollowUp::Next);
    assert_eq!(push_follow_up(&ApnsPushResult::Gone), PushFollowUp::RemoveTokenThenNext);
    assert_eq!(push_follow_up(&ApnsPushResult::AuthError), PushFollowUp::Next);
    assert_eq!(push_follow_up(&ApnsPushResult::Retry), PushFollowUp::Stop);
    assert_eq!(push_follow_up(&ApnsPushResult::OtherError("x".to_string())), PushFollowUp::Next);
}

fn target(token: &str, sandbox: bool) -> PushTarget {
    PushTarget { token: token.to_string(), sandbox }
}

#[test]
fn dispatch_tries_tokens_in_order_and_stops_on_retry() {
    let mut d = PushDispatch::new(vec![target("a", false), target("b", true), target("c", false)]);
    assert_eq!(d.next_token(), Some(&target("a", false)));
    assert_eq!(d.record(&ApnsPushResult::Gone), PushFollowUp::RemoveTokenThenNext);
    assert_eq!(d.next_token(), Some(&target("b", true)));
    assert_eq!(d.record(&ApnsPushResult::Retry), PushFollowUp::Stop);
    assert_eq!(d.next_token(), None);
}

#[test]
fn dispatch_runs_out_of_tokens() {
    let mut d = PushDispatch::new(vec![target("a", false)]);
    assert_eq!(d.record(&ApnsPushResult::Success), PushFollowUp::Next);
    assert_eq!(d.next_token(), None);
    let empty = PushDispatch::new(Vec::new());
    assert_eq!(empty.next_token(), None);
}

#[test]
fn notification_record_carries_content_and_fresh_id() {
    let content = should_notify("Stop", None, Some("done"), None, None).unwrap();
    let long_session = "x".repeat(80);
    let a = claudiator_server::ingest::notification_record(&long_session, content.clone());
    let b = claudiator_server::ingest::notification_record(&long_session, content);
    assert_eq!(a.title, "Session Stopped");
    assert_eq!(a.body, "Session stopped: done");
    assert_eq!(a.notification_type, "stop");
    assert_eq!(a.collapse_id, "x".repeat(64));
    assert_eq!(a.id.len(), 36);
    assert!(uuid::Uuid::parse_str(&a.id).is_ok());
    assert_ne!(a.id, b.id);
}

#[test]
fn error_answer_parts() {
    let e = AppError::BadRequest("device_id is required".to_string());
    assert_eq!(e.code(), "bad_request");
    assert_eq!(e.message(), "device_id is required");
    assert_eq!(AppError::Internal("x".to_string()).code(), "internal_error");
}

#[test]
fn timeout_reply() {
    assert_eq!(timeout_error_reply(true), (408, "Request timed out"));
    assert_eq!(timeout_error_reply(false), (500, "Internal server error"));
}

#[test]
fn notification_and_status_go_together() {
    let cases: [(&str, Option<&str>, &str, &str); 4] = [
        ("Stop", None, "stop", "waiting_for_input"),
        ("PermissionRequest", None, "permission_prompt", "waiting_for_permission"),
        ("Notification", Some("permission_prompt"), "permission_prompt", "waiting_for_permission"),
        ("Notification", Some("idle_prompt"), "idle_prompt", "idle"),
    ];
    for (hook, nt, kind, status) in cases {
        let n = should_notify(hook, nt, None, None, None).unwrap();
        assert_eq!(n.2, kind);
        assert_eq!(derive_session_status(hook, nt), Some(status.to_string()));
    }
}

#[test]
fn notification_kind_ignores_message_title_and_tool() {
    let a = should_notify("Notification", Some("idle_prompt"), None, None, None).unwrap();
    let b = should_notify("Notification", Some("idle_prompt"), Some("m"), Some("t"), Some("Bash")).unwrap();
    assert_eq!(a.2, b.2);
    assert!(should_notify("SessionEnd", None, Some("m"), Some("t"), Some("Bash")).is_none());
}

#[test]
fn permission_request_matches_permission_prompt_notification() {
    let a = should_notify("PermissionRequest", Some("anything"), Some("run"), Some("T"), Some("Bash"));
    let b = should_notify("Notification", Some("permission_prompt"), Some("run"), Some("T"), Some("Bash"));
    assert_eq!(a, b);
    assert!(a.is_some());
}

#[test]
fn titled_event_is_active() {
    let mut ev = event("s", "UserPromptSubmit");
    ev.prompt = Some("p".to_string());
    let rec = prepare_ingest(&payload("d", ev, "2024-01-01T00:00:00Z")).unwrap();
    assert!(rec.title.is_some());
    assert_eq!(rec.session_status, Some("active".to_string()));
}

#[test]
fn http_hook_payload_is_refused_only_for_event_fields() {
    let h = headers(&[
        ("X-Claudiator-Device-Id", "d"),
        ("X-Claudiator-Device-Name", "n"),
        ("X-Claudiator-Platform", "mac"),
    ]);
    let p = http_hook_payload(&h, event("", "Stop")).unwrap();
    assert_eq!(
        validate_event_payload(&p),
        Err(AppError::BadRequest("session_id is required".to_string()))
    );
    let p = http_hook_payload(&h, event("s", "")).unwrap();
    assert_eq!(
        validate_event_payload(&p),
        Err(AppError::BadRequest("hook_event_name is required".to_string()))
    );
}

fn has_server_time_shape(s: &str) -> bool {
    let b = s.as_bytes();
    let n = b.len();
    n >= 5
        && s.contains('T')
        && b[n - 5] == b'.'
        && b[n - 4..n - 1].iter().all(|c| c.is_ascii_digit())
        && b[n - 1] == b'Z'
}

#[test]
fn server_timestamps_have_millisecond_utc_shape() {
    let mut ev = event("s", "Stop");
    ev.message = None;
    let rec = prepare_ingest(&payload("d", ev.clone(), "2024-01-01T00:00:00+05:00")).unwrap();
    assert!(has_server_time_shape(&rec.received_at));
    assert_ne!(rec.received_at, "2024-01-01T00:00:00+05:00");
    let h = headers(&[
        ("X-Claudiator-Device-Id", "d"),
        ("X-Claudiator-Device-Name", "n"),
        ("X-Claudiator-Platform", "mac"),
    ]);
    assert!(has_server_time_shape(&http_hook_payload(&h, ev).unwrap().timestamp));
}

#[test]
fn invalid_header_names_find_nothing() {
    let h = headers(&[("X-Claudiator-Device-Id", "d"), ("x_odd!name", "odd")]);
    assert_eq!(header_value(&h, &["", "bad name", "X-Claudiator-Device-Id"]), Some("d".to_string()));
    assert_eq!(header_value(&h, &["bad name"]), None);
    assert_eq!(header_value(&h, &["X_ODD!NAME"]), Some("odd".to_string()));
    let long = "a".repeat(70);
    let long_upper = "A".repeat(70);
    let mut h2 = HeaderMap::new();
    h2.insert(
        axum::http::HeaderName::from_bytes(long.as_bytes()).unwrap(),
        HeaderValue::from_static("long"),
    );
    assert_eq!(header_value(&h2, &[long_upper.as_str()]), Some("long".to_string()));
    let too_long = "a".repeat(70_000);
    assert_eq!(header_value(&h2, &[too_long.as_str()]), None);
    assert_eq!(header_value(&h2, &[]), None);
}

#[test]
fn notification_is_planned_only_when_the_cooldown_admits() {
    let content = should_notify("Stop", None, Some("done"), None, None).unwrap();
    assert_eq!(plan_notification("s", content.clone(), false, true), None);
    let p = plan_notification("s", content.clone(), true, true).unwrap();
    assert!(p.push);
    assert_eq!(p.record.title, "Session Stopped");
    assert_eq!(p.record.body, "Session stopped: done");
    assert_eq!(p.record.notification_type, "stop");
    assert_eq!(p.record.collapse_id, "s");
    assert_eq!(p.record.id.len(), 36);
    let q = plan_notification("s", content, true, false).unwrap();
    assert!(!q.push);
}

fn is_v4_uuid(s: &str) -> bool {
    let b = s.as_bytes();
    b.len() == 36
        && b.iter().enumerate().all(|(i, c)| match i {
            8 | 13 | 18 | 23 => *c == b'-',
            14 => *c == b'4',
            19 => matches!(c, b'8' | b'9' | b'a' | b'b'),
            _ => c.is_ascii_digit() || (b'a'..=b'f').contains(c),
        })
}

#[test]
fn notification_ids_are_lower_case_v4_uuids() {
    let content = should_notify("Stop", None, None, None, None).unwrap();
    for _ in 0..20 {
        let p = plan_notification("s", content.clone(), true, false).unwrap();
        assert!(is_v4_uuid(&p.record.id), "{}", p.record.id);
    }
}

#[test]
fn server_time_text_is_24_characters_and_parses() {
    let rec = prepare_ingest(&payload("d", event("s", "Stop"), "2024-01-01T00:00:00Z")).unwrap();
    let t = &rec.received_at;
    assert_eq!(t.len(), 24);
    let b = t.as_bytes();
    for (i, c) in b.iter().enumerate() {
        match i {
            4 | 7 => assert_eq!(*c, b'-'),
            10 => assert_eq!(*c, b'T'),
            13 | 16 => assert_eq!(*c, b':'),
            19 => assert_eq!(*c, b'.'),
            23 => assert_eq!(*c, b'Z'),
            _ => assert!(c.is_ascii_digit()),
        }
    }
    assert!(chrono::DateTime::parse_from_rfc3339(t).is_ok());
}

#[test]
fn notification_content_uses_the_stored_title() {
    let mut ev = event("sess-1", "Stop");
    ev.message = Some("Max turns reached".to_string());
    ev.prompt = Some("ignored by the rule".to_string());
    let n = notification_content(&ev, Some("Fix the login bug")).unwrap();
    assert_eq!(n.0, "Fix the login bug");
    assert_eq!(n.1, "Session stopped: Max turns reached");
    assert_eq!(n.2, "stop");
    assert_eq!(notification_content(&ev, None).unwrap().0, "Session Stopped");

    let mut perm = event("s", "Notification");
    perm.notification_type = Some("permission_prompt".to_string());
    perm.tool_name = Some("Bash".to_string());
    assert_eq!(notification_content(&perm, None).unwrap().1, "Permission required: Bash");
    assert!(notification_content(&event("s", "SessionStart"), Some("t")).is_none());
}
