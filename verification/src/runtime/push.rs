//! Push polling: when to fetch events, how failures and new messages change
//! the push state, and how network answers are applied.

use vstd::prelude::*;

use crate::runtime::login::{
    channel9_logged_in, channel9_poll_interval, logged_in,
    poll_interval_ms, waiting_label, waiting_message, MAX_POLL_INTERVAL_MS,
};
use crate::runtime::messages::{detail_text_of, display_text_of, error_label, error_label_from_string};
use crate::runtime::types::{
    clone_opt_string, clone_strings, default_push_view, Channel9LoginState,
    Channel9NetworkDrain, Channel9NetworkRequest, Channel9NetworkResponse, Channel9PushState,
    Channel9RuntimeConfig, Channel9SseDrain, DeviceMessage, DeviceMessageView, LoginView,
    NetworkRequestView, NetworkResponseView, PollToken, PollTokenView, PushView,
    RuntimeConfigView, StatusChannel9,
};

verus! {

pub open spec fn sse_ready(cfg: RuntimeConfigView, wifi_connected: bool) -> bool {
    logged_in(cfg) && wifi_connected
}

pub open spec fn no_drain() -> Channel9SseDrain {
    Channel9SseDrain { changed: false, new_messages: 0 }
}

pub open spec fn after_build_sse_request(
    cfg: RuntimeConfigView,
    wifi_connected: bool,
    push: PushView,
    interval_ms: u64,
    now_ms: u64,
) -> (PushView, Channel9SseDrain, Option<NetworkRequestView>) {
    if !sse_ready(cfg, wifi_connected) {
        let changed = push.status != StatusChannel9::Off;
        let p = PushView {
            status: StatusChannel9::Off,
            consecutive_failures: 0,
            fetch_in_flight: false,
            ..push
        };
        if !logged_in(cfg) && p != default_push_view() {
            (default_push_view(), Channel9SseDrain { changed: true, new_messages: 0 }, None)
        } else {
            (p, Channel9SseDrain { changed, new_messages: 0 }, None)
        }
    } else if push.fetch_in_flight {
        (push, no_drain(), None)
    } else if (match push.next_fetch_at {
        Some(t) => now_ms < t,
        None => false,
    }) {
        (push, no_drain(), None)
    } else {
        let p = PushView { next_fetch_at: Some((now_ms + interval_ms) as u64), ..push };
        match cfg.access_token {
            None => (
                PushView {
                    status: StatusChannel9::Off,
                    consecutive_failures: 0,
                    fetch_in_flight: false,
                    ..p
                },
                Channel9SseDrain { changed: p.status != StatusChannel9::Off, new_messages: 0 },
                None,
            ),
            Some(token) => (
                PushView { fetch_in_flight: true, ..p },
                no_drain(),
                Some(
                    NetworkRequestView::FetchDeviceEvents {
                        api_base_url: cfg.api_base_url,
                        device_id: cfg.device_id,
                        access_token: token,
                        interfaces: cfg.interfaces,
                        cursor: p.last_cursor,
                    },
                ),
            ),
        }
    }
}

pub open spec fn after_sse_failure(push: PushView, failure_threshold: u8) -> (
    PushView,
    Channel9SseDrain,
) {
    let failures: u8 = if push.consecutive_failures == u8::MAX {
        u8::MAX
    } else {
        (push.consecutive_failures + 1) as u8
    };
    let p = PushView { fetch_in_flight: false, consecutive_failures: failures, ..push };
    if failures < failure_threshold {
        (p, no_drain())
    } else {
        (
            PushView { status: StatusChannel9::Failed, ..p },
            Channel9SseDrain { changed: p.status != StatusChannel9::Failed, new_messages: 0 },
        )
    }
}

pub open spec fn saturating_count(count: usize, added: nat) -> usize {
    if count + added > usize::MAX {
        usize::MAX
    } else {
        (count + added) as usize
    }
}

pub open spec fn after_sse_messages(push: PushView, messages: Seq<DeviceMessageView>) -> (
    PushView,
    Channel9SseDrain,
) {
    let status_changed = push.status != StatusChannel9::Online;
    let p = PushView {
        status: StatusChannel9::Online,
        consecutive_failures: 0,
        fetch_in_flight: false,
        ..push
    };
    if messages.len() == 0 {
        if p.message_count == 0 {
            let detail_changed = p.detail != "Listening for pushes"@;
            (
                PushView { detail: "Listening for pushes"@, ..p },
                Channel9SseDrain { changed: status_changed || detail_changed, new_messages: 0 },
            )
        } else {
            (p, Channel9SseDrain { changed: status_changed, new_messages: 0 })
        }
    } else {
        let last = messages.last();
        (
            PushView {
                message_count: saturating_count(p.message_count, messages.len()),
                last_cursor: Some(last.cursor),
                suggestion: display_text_of(last.payload),
                detail: detail_text_of(last.target_interface),
                ..p
            },
            Channel9SseDrain {
                changed: true,
                new_messages: saturating_count(0, messages.len()),
            },
        )
    }
}

pub open spec fn network_drain(d: Channel9SseDrain) -> Channel9NetworkDrain {
    Channel9NetworkDrain { changed: d.changed, new_messages: d.new_messages }
}

pub open spec fn no_network_drain() -> Channel9NetworkDrain {
    Channel9NetworkDrain { changed: false, new_messages: 0 }
}

pub open spec fn changed_drain() -> Channel9NetworkDrain {
    Channel9NetworkDrain { changed: true, new_messages: 0 }
}

/// What an answer from the network worker does to the saved credentials, the
/// login state and the push state.
pub open spec fn after_network_response(
    response: NetworkResponseView,
    cfg: RuntimeConfigView,
    login: LoginView,
    push: PushView,
    wifi_connected: bool,
    failure_threshold: u8,
    now_ms: u64,
) -> (RuntimeConfigView, LoginView, PushView, Channel9NetworkDrain) {
    match response {
        NetworkResponseView::DeviceCode { device_id, result } => {
            let l = LoginView { inflight_request: None, ..login };
            if cfg.device_id != device_id {
                (cfg, l, push, no_network_drain())
            } else {
                match result {
                    Ok(code) => (
                        RuntimeConfigView { access_token: None, token_expires_at: None, ..cfg },
                        LoginView {
                            next_poll_at: Some((now_ms + poll_interval_ms(code)) as u64),
                            message: waiting_message(code),
                            active_code: Some(code),
                            ..l
                        },
                        push,
                        changed_drain(),
                    ),
                    Err(e) => (
                        cfg,
                        LoginView { message: error_label("Create failed"@, e), ..l },
                        push,
                        changed_drain(),
                    ),
                }
            }
        },
        NetworkResponseView::DeviceToken { device_code, result } => {
            let l = LoginView { inflight_request: None, ..login };
            match l.active_code {
                None => (cfg, l, push, no_network_drain()),
                Some(code) => if code.device_code != device_code {
                    (cfg, l, push, no_network_drain())
                } else {
                    match result {
                        Ok(PollTokenView::Pending) => (
                            cfg,
                            LoginView {
                                next_poll_at: Some((now_ms + poll_interval_ms(code)) as u64),
                                message: waiting_message(code),
                                ..l
                            },
                            push,
                            changed_drain(),
                        ),
                        Ok(PollTokenView::Approved(token)) => (
                            RuntimeConfigView {
                                access_token: Some(token.access_token),
                                token_expires_at: Some(token.expires_at),
                                workspace_id: token.workspace_id,
                                device_id: token.device_id,
                                ..cfg
                            },
                            LoginView {
                                message: "Activated"@,
                                active_code: None,
                                next_poll_at: None,
                                ..l
                            },
                            push,
                            changed_drain(),
                        ),
                        Err(e) => (
                            cfg,
                            LoginView {
                                next_poll_at: Some((now_ms + poll_interval_ms(code)) as u64),
                                message: error_label("Poll failed"@, e),
                                ..l
                            },
                            push,
                            changed_drain(),
                        ),
                    }
                },
            }
        },
        NetworkResponseView::DeviceEvents(result) => {
            if !sse_ready(cfg, wifi_connected) {
                (cfg, login, PushView { fetch_in_flight: false, ..push }, no_network_drain())
            } else {
                let (p, d) = match result {
                    Ok(events) => if !events.connected {
                        after_sse_failure(push, failure_threshold)
                    } else {
                        after_sse_messages(push, events.messages)
                    },
                    Err(_) => after_sse_failure(push, failure_threshold),
                };
                (cfg, login, p, network_drain(d))
            }
        },
    }
}

/// Is the device ready to fetch pushes: logged in and online.
pub fn channel9_sse_ready(config: &Channel9RuntimeConfig, wifi_connected: bool) -> (r: bool)
    ensures
        r == sse_ready(config@, wifi_connected),
{
    channel9_logged_in(config) && wifi_connected
}

fn push_state_equals(a: &Channel9PushState, b: &Channel9PushState) -> (r: bool)
    ensures
        r == (a@ == b@),
{
    let cursors_equal = match (&a.last_cursor, &b.last_cursor) {
        (Some(x), Some(y)) => *x == *y,
        (None, None) => true,
        _ => false,
    };
    a.status == b.status && a.suggestion == b.suggestion && a.detail == b.detail
        && a.message_count == b.message_count && cursors_equal && a.next_fetch_at
        == b.next_fetch_at && a.consecutive_failures == b.consecutive_failures
        && a.fetch_in_flight == b.fetch_in_flight
}

/// Decides whether to fetch pushes now. Offline or logged out, the push
/// state goes to `Off` (and, logged out, back to its defaults) and nothing is
/// fetched; otherwise one fetch is started when none is in flight and the
/// fetch deadline has passed, and the next one is due `interval_ms` later.
pub fn maybe_build_channel9_sse_request(
    config: &Channel9RuntimeConfig,
    wifi_connected: bool,
    push: &mut Channel9PushState,
    interval_ms: u64,
    now_ms: u64,
) -> (r: (Channel9SseDrain, Option<Channel9NetworkRequest>))
    requires
        now_ms + interval_ms <= u64::MAX,
    ensures
        (final(push)@, r.0, match r.1 {
            Some(req) => Some(req@),
            None => None::<NetworkRequestView>,
        }) == after_build_sse_request(config@, wifi_connected, old(push)@, interval_ms, now_ms),
{
    if !channel9_sse_ready(config, wifi_connected) {
        let changed = push.status != StatusChannel9::Off;
        push.status = StatusChannel9::Off;
        push.consecutive_failures = 0;
        push.fetch_in_flight = false;
        if !channel9_logged_in(config) {
            let default_push = Channel9PushState::default();
            if !push_state_equals(push, &default_push) {
                *push = default_push;
                return (Channel9SseDrain { changed: true, new_messages: 0 }, None);
            }
        }
        return (Channel9SseDrain { changed, new_messages: 0 }, None);
    }
    if push.fetch_in_flight {
        return (Channel9SseDrain { changed: false, new_messages: 0 }, None);
    }
    let should_poll = match push.next_fetch_at {
        Some(next) => now_ms >= next,
        None => true,
    };
    if !should_poll {
        return (Channel9SseDrain { changed: false, new_messages: 0 }, None);
    }
    push.next_fetch_at = Some(now_ms + interval_ms);
    let access_token = match &config.access_token {
        Some(token) => token.clone(),
        None => {
            let changed = push.status != StatusChannel9::Off;
            push.status = StatusChannel9::Off;
            push.consecutive_failures = 0;
            push.fetch_in_flight = false;
            return (Channel9SseDrain { changed, new_messages: 0 }, None);
        },
    };
    push.fetch_in_flight = true;
    (
        Channel9SseDrain { changed: false, new_messages: 0 },
        Some(
            Channel9NetworkRequest::FetchDeviceEvents {
                api_base_url: config.api_base_url.clone(),
                device_id: config.device_id.clone(),
                access_token,
                interfaces: clone_strings(&config.interfaces),
                cursor: clone_opt_string(&push.last_cursor),
            },
        ),
    )
}

/// Counts a failed fetch; from `failure_threshold` failures in a row on, the
/// push status is `Failed`.
pub fn mark_channel9_sse_failure(push: &mut Channel9PushState, failure_threshold: u8) -> (r:
    Channel9SseDrain)
    ensures
        (final(push)@, r) == after_sse_failure(old(push)@, failure_threshold),
{
    push.fetch_in_flight = false;
    push.consecutive_failures = if push.consecutive_failures == u8::MAX {
        u8::MAX
    } else {
        push.consecutive_failures + 1
    };
    if push.consecutive_failures < failure_threshold {
        return Channel9SseDrain { changed: false, new_messages: 0 };
    }
    let changed = push.status != StatusChannel9::Failed;
    push.status = StatusChannel9::Failed;
    Channel9SseDrain { changed, new_messages: 0 }
}

/// Applies a successful fetch: the push status is `Online`, and the last of
/// the new messages becomes the shown suggestion, detail and cursor.
pub fn apply_channel9_sse_messages(push: &mut Channel9PushState, messages: Vec<DeviceMessage>) -> (r:
    Channel9SseDrain)
    ensures
        (final(push)@, r) == after_sse_messages(
            old(push)@,
            messages@.map_values(|m: DeviceMessage| m@),
        ),
{
    let ghost msgs = messages@.map_values(|m: DeviceMessage| m@);
    let status_changed = push.status != StatusChannel9::Online;
    push.status = StatusChannel9::Online;
    push.consecutive_failures = 0;
    push.fetch_in_flight = false;
    if messages.len() == 0 {
        if push.message_count == 0 {
            let detail_changed = !crate::text::str_eq(push.detail.as_str(), "Listening for pushes");
            if detail_changed {
                push.detail = "Listening for pushes".to_owned();
            }
            return Channel9SseDrain {
                changed: status_changed || detail_changed,
                new_messages: 0,
            };
        }
        return Channel9SseDrain { changed: status_changed, new_messages: 0 };
    }
    let ghost start = push@;
    let mut new_messages: usize = 0;
    let mut i: usize = 0;
    while i < messages.len()
        invariant
            i <= messages.len(),
            msgs == messages@.map_values(|m: DeviceMessage| m@),
            new_messages == saturating_count(0, i as nat),
            push@.message_count == saturating_count(start.message_count, i as nat),
            push@.status == start.status,
            push@.consecutive_failures == start.consecutive_failures,
            push@.fetch_in_flight == start.fetch_in_flight,
            push@.next_fetch_at == start.next_fetch_at,
            i == 0 ==> push@ == start,
            i > 0 ==> push@.last_cursor == Some(msgs[i - 1].cursor) && push@.suggestion
                == display_text_of(msgs[i - 1].payload) && push@.detail == detail_text_of(
                msgs[i - 1].target_interface,
            ),
        decreases messages.len() - i,
    {
        let message = &messages[i];
        assert(msgs[i as int] == message@);
        new_messages = if new_messages == usize::MAX {
            usize::MAX
        } else {
            new_messages + 1
        };
        push.message_count = if push.message_count == usize::MAX {
            usize::MAX
        } else {
            push.message_count + 1
        };
        push.last_cursor = Some(message.cursor.clone());
        push.suggestion = message.display_text();
        push.detail = message.detail_text();
        i += 1;
    }
    Channel9SseDrain { changed: true, new_messages }
}

/// Applies an answer from the network worker. An answer for another device
/// id, or for a code that is no longer the active one, only clears the
/// in-flight marker; an event fetch that arrives offline or logged out only
/// clears the fetch marker.
pub fn apply_channel9_network_response(
    response: Channel9NetworkResponse,
    config: &mut Channel9RuntimeConfig,
    login: &mut Channel9LoginState,
    push: &mut Channel9PushState,
    wifi_connected: bool,
    failure_threshold: u8,
    now_ms: u64,
) -> (r: Channel9NetworkDrain)
    requires
        now_ms <= u64::MAX - MAX_POLL_INTERVAL_MS,
    ensures
        (final(config)@, final(login)@, final(push)@, r) == after_network_response(
            response@,
            old(config)@,
            old(login)@,
            old(push)@,
            wifi_connected,
            failure_threshold,
            now_ms,
        ),
{
    match response {
        Channel9NetworkResponse::DeviceCode { device_id, result } => {
            login.inflight_request = None;
            if config.device_id != device_id {
                return Channel9NetworkDrain { changed: false, new_messages: 0 };
            }
            match result {
                Ok(code) => {
                    login.next_poll_at = Some(now_ms + channel9_poll_interval(&code));
                    login.message = waiting_label(&code);
                    login.active_code = Some(code);
                    config.access_token = None;
                    config.token_expires_at = None;
                },
                Err(err) => {
                    login.message = error_label_from_string("Create failed", err.as_str());
                },
            }
            Channel9NetworkDrain { changed: true, new_messages: 0 }
        },
        Channel9NetworkResponse::DeviceToken { device_code, result } => {
            login.inflight_request = None;
            let (interval, waiting) = match &login.active_code {
                None => return Channel9NetworkDrain { changed: false, new_messages: 0 },
                Some(code) => {
                    if code.device_code != device_code {
                        return Channel9NetworkDrain { changed: false, new_messages: 0 };
                    }
                    (channel9_poll_interval(code), waiting_label(code))
                },
            };
            match result {
                Ok(PollToken::Pending) => {
                    login.next_poll_at = Some(now_ms + interval);
                    login.message = waiting;
                },
                Ok(PollToken::Approved(token)) => {
                    config.access_token = Some(token.access_token);
                    config.token_expires_at = Some(token.expires_at);
                    config.workspace_id = token.workspace_id;
                    config.device_id = token.device_id;
                    login.message = "Activated".to_owned();
                    login.active_code = None;
                    login.next_poll_at = None;
                },
                Err(err) => {
                    login.next_poll_at = Some(now_ms + interval);
                    login.message = error_label_from_string("Poll failed", err.as_str());
                },
            }
            Channel9NetworkDrain { changed: true, new_messages: 0 }
        },
        Channel9NetworkResponse::DeviceEvents(result) => {
            if !channel9_sse_ready(config, wifi_connected) {
                push.fetch_in_flight = false;
                return Channel9NetworkDrain { changed: false, new_messages: 0 };
            }
            let sse_drain = match result {
                Ok(events) => {
                    if !events.connected {
                        mark_channel9_sse_failure(push, failure_threshold)
                    } else {
                        apply_channel9_sse_messages(push, events.messages)
                    }
                },
                Err(_) => mark_channel9_sse_failure(push, failure_threshold),
            };
            Channel9NetworkDrain { changed: sse_drain.changed, new_messages: sse_drain.new_messages }
        },
    }
}

} // verus!
