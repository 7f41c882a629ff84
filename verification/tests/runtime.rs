use channel9::runtime::login::{
    backoff_channel9_login_request, build_channel9_login_request, channel9_poll_interval,
    maybe_schedule_channel9_auto_poll,
};
use channel9::runtime::messages::{error_label_from_string, format_user_code};
use channel9::runtime::push::{
    apply_channel9_network_response, apply_channel9_sse_messages,
    maybe_build_channel9_sse_request, mark_channel9_sse_failure,
};
use channel9::runtime::types::{
    Channel9LoginRequest, Channel9LoginState, Channel9NetworkRequest, Channel9NetworkResponse,
    Channel9PushState, Channel9RuntimeConfig, DeviceCode, DeviceMessage, DeviceToken,
    PayloadField, PollToken, PushPayload, StatusChannel9,
};

fn runtime_config() -> Channel9RuntimeConfig {
    Channel9RuntimeConfig {
        api_base_url: "https://app.linkerdog.work".to_owned(),
        device_id: "device-a".to_owned(),
        description: "test device".to_owned(),
        interfaces: vec!["display".to_owned(), "speaker".to_owned()],
        workspace_id: String::new(),
        access_token: None,
        token_expires_at: None,
    }
}

fn device_code(value: &str) -> DeviceCode {
    DeviceCode {
        device_code: value.to_owned(),
        user_code: "abcd1234".to_owned(),
        verification_uri: "https://example.test/activate".to_owned(),
        verification_uri_complete: "https://example.test/activate?code=ABCD-1234".to_owned(),
        expires_at: i64::MAX,
        activation_expires_at: i64::MAX,
        interval_seconds: 5,
    }
}

fn message_payload(text: &str) -> PushPayload {
    PushPayload::Object(vec![PayloadField {
        key: "message".to_owned(),
        text: Some(text.to_owned()),
    }])
}

fn device_message(cursor: &str, text: &str) -> DeviceMessage {
    DeviceMessage {
        cursor: cursor.to_owned(),
        message_id: format!("msg-{cursor}"),
        target_interface: Some("display".to_owned()),
        payload: message_payload(text),
    }
}

#[test]
fn backs_off_login_request_when_network_queue_is_full() {
    let mut login = Channel9LoginState {
        pending_request: Some(Channel9LoginRequest::Poll),
        ..Default::default()
    };
    backoff_channel9_login_request(&mut login, Channel9LoginRequest::Poll, 1000, 0);

    assert_eq!(login.pending_request, Some(Channel9LoginRequest::Poll));
    assert_eq!(login.message, "Network busy");
    assert!(login.next_poll_at.is_some());
}

#[test]
fn device_code_response_sets_active_code_and_clears_token() {
    let mut config = Channel9RuntimeConfig {
        access_token: Some("old-token".to_owned()),
        token_expires_at: Some(123),
        ..runtime_config()
    };
    let mut login = Channel9LoginState {
        inflight_request: Some(Channel9LoginRequest::Create),
        ..Default::default()
    };
    let mut push = Channel9PushState::default();

    let drain = apply_channel9_network_response(
        Channel9NetworkResponse::DeviceCode {
            device_id: "device-a".to_owned(),
            result: Ok(device_code("dc-1")),
        },
        &mut config,
        &mut login,
        &mut push,
        true,
        3,
        0,
    );

    assert!(drain.changed);
    assert!(login.active_code.is_some());
    assert_eq!(login.message, "Waiting ABCD-1234");
    assert_eq!(config.access_token, None);
    assert_eq!(config.token_expires_at, None);
}

#[test]
fn stale_device_code_response_is_ignored() {
    let mut config = runtime_config();
    config.device_id = "device-b".to_owned();
    let mut login = Channel9LoginState {
        inflight_request: Some(Channel9LoginRequest::Create),
        ..Default::default()
    };
    let mut push = Channel9PushState::default();

    let drain = apply_channel9_network_response(
        Channel9NetworkResponse::DeviceCode {
            device_id: "device-a".to_owned(),
            result: Ok(device_code("dc-1")),
        },
        &mut config,
        &mut login,
        &mut push,
        true,
        3,
        0,
    );

    assert!(!drain.changed);
    assert!(login.active_code.is_none());
}

#[test]
fn approved_token_activates_login_metadata() {
    let mut config = runtime_config();
    let mut login = Channel9LoginState {
        active_code: Some(device_code("dc-1")),
        inflight_request: Some(Channel9LoginRequest::Poll),
        ..Default::default()
    };
    let mut push = Channel9PushState::default();

    let drain = apply_channel9_network_response(
        Channel9NetworkResponse::DeviceToken {
            device_code: "dc-1".to_owned(),
            result: Ok(PollToken::Approved(DeviceToken {
                access_token: "token".to_owned(),
                token_type: "Bearer".to_owned(),
                expires_at: 456,
                workspace_id: "workspace".to_owned(),
                device_id: "device-server".to_owned(),
            })),
        },
        &mut config,
        &mut login,
        &mut push,
        true,
        3,
        0,
    );

    assert!(drain.changed);
    assert_eq!(config.access_token.as_deref(), Some("token"));
    assert_eq!(config.workspace_id, "workspace");
    assert_eq!(config.device_id, "device-server");
    assert!(login.active_code.is_none());
    assert_eq!(login.message, "Activated");
}

#[test]
fn stale_token_response_is_ignored() {
    let mut config = runtime_config();
    let mut login = Channel9LoginState {
        active_code: Some(device_code("current")),
        inflight_request: Some(Channel9LoginRequest::Poll),
        ..Default::default()
    };
    let mut push = Channel9PushState::default();

    let drain = apply_channel9_network_response(
        Channel9NetworkResponse::DeviceToken {
            device_code: "old".to_owned(),
            result: Ok(PollToken::Pending),
        },
        &mut config,
        &mut login,
        &mut push,
        true,
        3,
        0,
    );

    assert!(!drain.changed);
    assert_eq!(
        login.active_code.as_ref().map(|code| code.device_code.as_str()),
        Some("current")
    );
}

#[test]
fn sse_empty_message_response_does_not_repaint_when_unchanged() {
    let mut push = Channel9PushState {
        status: StatusChannel9::Online,
        detail: "Listening for pushes".to_owned(),
        fetch_in_flight: true,
        ..Default::default()
    };

    let drain = apply_channel9_sse_messages(&mut push, Vec::new());

    assert!(!drain.changed);
    assert_eq!(drain.new_messages, 0);
    assert!(!push.fetch_in_flight);
}

#[test]
fn sse_messages_update_cursor_and_count() {
    let mut push = Channel9PushState {
        fetch_in_flight: true,
        ..Default::default()
    };

    let drain = apply_channel9_sse_messages(
        &mut push,
        vec![device_message("c1", "Hello"), device_message("c2", "World")],
    );

    assert!(drain.changed);
    assert_eq!(drain.new_messages, 2);
    assert_eq!(push.message_count, 2);
    assert_eq!(push.last_cursor.as_deref(), Some("c2"));
    assert_eq!(push.suggestion, "World");
    assert_eq!(push.detail, "display push received");
    assert!(!push.fetch_in_flight);
}

#[test]
fn logout_or_offline_clears_push_state() {
    let config = runtime_config();
    let mut push = Channel9PushState {
        status: StatusChannel9::Online,
        suggestion: "Old".to_owned(),
        detail: "Old detail".to_owned(),
        message_count: 3,
        last_cursor: Some("cursor".to_owned()),
        fetch_in_flight: true,
        ..Default::default()
    };

    let (drain, request) = maybe_build_channel9_sse_request(&config, false, &mut push, 10_000, 0);

    assert!(drain.changed);
    assert!(request.is_none());
    assert_eq!(push, Channel9PushState::default());
}

#[test]
fn logged_in_state_builds_sse_request_once() {
    let config = Channel9RuntimeConfig {
        access_token: Some("token".to_owned()),
        ..runtime_config()
    };
    let mut push = Channel9PushState::default();

    let (drain, request) = maybe_build_channel9_sse_request(&config, true, &mut push, 10_000, 0);

    assert!(!drain.changed);
    assert!(matches!(
        request,
        Some(Channel9NetworkRequest::FetchDeviceEvents { .. })
    ));
    assert!(push.fetch_in_flight);

    let (_drain, second_request) =
        maybe_build_channel9_sse_request(&config, true, &mut push, 10_000, 0);
    assert!(second_request.is_none());
}

#[test]
fn user_codes_are_normalized_once_and_for_all() {
    assert_eq!(format_user_code("abcd1234"), "ABCD-1234");
    assert_eq!(format_user_code(" ab-cd 12 34 xyz9876543 "), "ABCD-1234XYZ9");
    assert_eq!(format_user_code("ab1"), "AB1");
    assert_eq!(format_user_code(""), "");
    let once = format_user_code("wxyz-5678-extra");
    assert_eq!(format_user_code(&once), once);
}

#[test]
fn error_labels_keep_the_first_32_characters() {
    assert_eq!(error_label_from_string("Create failed", ""), "Create failed");
    assert_eq!(error_label_from_string("Poll failed", "timeout"), "Poll failed: timeout");
    let long = "x".repeat(40);
    assert_eq!(error_label_from_string("E", &long), format!("E: {}", "x".repeat(32)));
}

#[test]
fn poll_interval_is_clamped() {
    let mut code = device_code("dc-1");
    code.interval_seconds = 0;
    assert_eq!(channel9_poll_interval(&code), 1000);
    code.interval_seconds = 5;
    assert_eq!(channel9_poll_interval(&code), 5000);
    code.interval_seconds = 600;
    assert_eq!(channel9_poll_interval(&code), 60000);
}

#[test]
fn auto_poll_waits_for_its_deadline() {
    let config = runtime_config();
    let mut login = Channel9LoginState {
        active_code: Some(device_code("dc-1")),
        next_poll_at: Some(5000),
        ..Default::default()
    };
    assert!(!maybe_schedule_channel9_auto_poll(&config, &mut login, 4000, Some(0)));
    assert_eq!(login.pending_request, None);
    assert!(maybe_schedule_channel9_auto_poll(&config, &mut login, 5000, Some(0)));
    assert_eq!(login.pending_request, Some(Channel9LoginRequest::Poll));
    assert_eq!(login.message, "Checking approval");
    assert!(!maybe_schedule_channel9_auto_poll(&config, &mut login, 9000, Some(0)));

    let logged_in = Channel9RuntimeConfig { access_token: Some("token".to_owned()), ..runtime_config() };
    let mut idle = Channel9LoginState { active_code: Some(device_code("dc-1")), ..Default::default() };
    assert!(!maybe_schedule_channel9_auto_poll(&logged_in, &mut idle, 9000, Some(0)));

    let mut expiring = device_code("dc-2");
    expiring.activation_expires_at = 100;
    let mut stale = Channel9LoginState { active_code: Some(expiring), ..Default::default() };
    assert!(!maybe_schedule_channel9_auto_poll(&config, &mut stale, 0, Some(100)));
    assert_eq!(stale.active_code, None);
    assert_eq!(stale.message, "Code expired");
}

#[test]
fn login_request_is_built_once_until_answered() {
    let config = runtime_config();
    let mut login = Channel9LoginState {
        pending_request: Some(Channel9LoginRequest::Create),
        ..Default::default()
    };
    let request = build_channel9_login_request(&config, &mut login, true, 0, Some(0));
    assert!(matches!(request, Some(Channel9NetworkRequest::CreateDeviceCode { .. })));
    assert_eq!(login.inflight_request, Some(Channel9LoginRequest::Create));
    login.pending_request = Some(Channel9LoginRequest::Poll);
    let before = login.clone();
    assert_eq!(build_channel9_login_request(&config, &mut login, true, 0, Some(0)), None);
    assert_eq!(login, before);
}

#[test]
fn blocked_login_requests_report_why() {
    let missing = Channel9RuntimeConfig { device_id: "  ".to_owned(), ..runtime_config() };
    let mut login = Channel9LoginState {
        pending_request: Some(Channel9LoginRequest::Create),
        ..Default::default()
    };
    assert_eq!(build_channel9_login_request(&missing, &mut login, true, 0, Some(0)), None);
    assert_eq!(login.message, "Set Device first");
    assert_eq!(login.pending_request, None);

    let mut offline = Channel9LoginState {
        active_code: Some(device_code("dc-1")),
        pending_request: Some(Channel9LoginRequest::Poll),
        ..Default::default()
    };
    assert_eq!(build_channel9_login_request(&runtime_config(), &mut offline, false, 1000, Some(0)), None);
    assert_eq!(offline.message, "WiFi offline");
    assert_eq!(offline.next_poll_at, Some(6000));
}

#[test]
fn pending_answer_reschedules_the_poll() {
    let mut config = runtime_config();
    let mut login = Channel9LoginState {
        active_code: Some(device_code("dc-1")),
        inflight_request: Some(Channel9LoginRequest::Poll),
        ..Default::default()
    };
    let mut push = Channel9PushState::default();
    let drain = apply_channel9_network_response(
        Channel9NetworkResponse::DeviceToken {
            device_code: "dc-1".to_owned(),
            result: Ok(PollToken::Pending),
        },
        &mut config,
        &mut login,
        &mut push,
        true,
        3,
        10_000,
    );
    assert!(drain.changed);
    assert_eq!(login.next_poll_at, Some(15_000));
    assert_eq!(login.message, "Waiting ABCD-1234");
    assert_eq!(login.inflight_request, None);
    assert!(login.active_code.is_some());
}

#[test]
fn failures_mark_push_failed_at_the_threshold() {
    let mut push = Channel9PushState { status: StatusChannel9::Online, fetch_in_flight: true, ..Default::default() };
    assert!(!mark_channel9_sse_failure(&mut push, 3).changed);
    assert!(!mark_channel9_sse_failure(&mut push, 3).changed);
    assert_eq!(push.status, StatusChannel9::Online);
    assert!(!push.fetch_in_flight);
    let third = mark_channel9_sse_failure(&mut push, 3);
    assert!(third.changed);
    assert_eq!(push.status, StatusChannel9::Failed);
    assert_eq!(push.consecutive_failures, 3);
    assert!(!mark_channel9_sse_failure(&mut push, 3).changed);
    let drain = apply_channel9_sse_messages(&mut push, Vec::new());
    assert!(drain.changed);
    assert_eq!(push.status, StatusChannel9::Online);
    assert_eq!(push.consecutive_failures, 0);
}
