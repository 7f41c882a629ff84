//! The device-code login: when to poll, which request to send, and what an
//! answer does to the login state and the saved credentials.

use vstd::prelude::*;

use crate::runtime::messages::{
    format_user_code, login_block_label, user_code_label,
};
use crate::runtime::types::{
    clone_strings, Channel9LoginBlock, Channel9LoginRequest,
    Channel9LoginState, Channel9NetworkRequest, Channel9RuntimeConfig, DeviceCode, DeviceCodeView,
    LoginView, NetworkRequestView, RuntimeConfigView,
};
use crate::text::{is_blank, push_str, trim};

verus! {

/// Largest poll interval, in milliseconds.
pub const MAX_POLL_INTERVAL_MS: u64 = 60_000;

pub open spec fn logged_in(cfg: RuntimeConfigView) -> bool {
    cfg.access_token is Some
}

pub open spec fn login_blocked(cfg: RuntimeConfigView, wifi_connected: bool) -> Option<
    Channel9LoginBlock,
> {
    if trim(cfg.device_id).len() == 0 {
        Some(Channel9LoginBlock::DeviceMissing)
    } else if !wifi_connected {
        Some(Channel9LoginBlock::WifiOffline)
    } else {
        None
    }
}

/// The poll interval of a code: its `interval_seconds` clamped to 1..=60,
/// in milliseconds.
pub open spec fn poll_interval_ms(code: DeviceCodeView) -> u64 {
    let secs = if code.interval_seconds < 1 {
        1
    } else if code.interval_seconds > 60 {
        60
    } else {
        code.interval_seconds
    };
    (secs * 1000) as u64
}

/// Has the active code's activation window closed at `unix_now` (seconds since
/// the Unix epoch; `None` when the clock reads before the epoch).
pub open spec fn code_expired(login: LoginView, unix_now: Option<u64>) -> bool {
    match (login.active_code, unix_now) {
        (Some(code), Some(now)) => (now as i64) >= code.activation_expires_at,
        _ => false,
    }
}

pub open spec fn deadline_pending(deadline: Option<u64>, now_ms: u64) -> bool {
    match deadline {
        Some(t) => now_ms < t,
        None => false,
    }
}

/// The message shown while waiting for approval of a code.
pub open spec fn waiting_message(code: DeviceCodeView) -> Seq<char> {
    "Waiting "@ + user_code_label(code.user_code)
}

pub open spec fn after_auto_poll(
    cfg: RuntimeConfigView,
    login: LoginView,
    now_ms: u64,
    unix_now: Option<u64>,
) -> (LoginView, bool) {
    if logged_in(cfg) || login.active_code is None || login.pending_request is Some
        || login.inflight_request is Some {
        (login, false)
    } else if code_expired(login, unix_now) {
        (LoginView { active_code: None, next_poll_at: None, message: "Code expired"@, ..login }, false)
    } else if deadline_pending(login.next_poll_at, now_ms) {
        (login, false)
    } else {
        (
            LoginView {
                pending_request: Some(Channel9LoginRequest::Poll),
                message: "Checking approval"@,
                ..login
            },
            true,
        )
    }
}

pub open spec fn create_request(cfg: RuntimeConfigView) -> NetworkRequestView {
    NetworkRequestView::CreateDeviceCode {
        api_base_url: cfg.api_base_url,
        device_id: cfg.device_id,
        description: cfg.description,
        interfaces: cfg.interfaces,
    }
}

pub open spec fn after_build_login_request(
    cfg: RuntimeConfigView,
    login: LoginView,
    wifi_connected: bool,
    now_ms: u64,
    unix_now: Option<u64>,
) -> (LoginView, Option<NetworkRequestView>) {
    if login.inflight_request is Some {
        (login, None)
    } else {
        match login.pending_request {
            None => (login, None),
            Some(request) => {
                let l = LoginView { pending_request: None, message: Seq::empty(), ..login };
                match request {
                    Channel9LoginRequest::Create => match login_blocked(cfg, wifi_connected) {
                        Some(block) => (LoginView { message: login_block_label(block), ..l }, None),
                        None => (
                            LoginView { inflight_request: Some(Channel9LoginRequest::Create), ..l },
                            Some(create_request(cfg)),
                        ),
                    },
                    Channel9LoginRequest::Poll => if !wifi_connected {
                        (
                            LoginView {
                                next_poll_at: match l.active_code {
                                    Some(code) => Some((now_ms + poll_interval_ms(code)) as u64),
                                    None => None,
                                },
                                message: "WiFi offline"@,
                                ..l
                            },
                            None,
                        )
                    } else if l.active_code is None {
                        (LoginView { message: "Create code first"@, ..l }, None)
                    } else if code_expired(l, unix_now) {
                        (
                            LoginView {
                                active_code: None,
                                next_poll_at: None,
                                message: "Code expired"@,
                                ..l
                            },
                            None,
                        )
                    } else {
                        (
                            LoginView { inflight_request: Some(Channel9LoginRequest::Poll), ..l },
                            Some(
                                NetworkRequestView::PollDeviceToken {
                                    api_base_url: cfg.api_base_url,
                                    device_code: l.active_code->0.device_code,
                                },
                            ),
                        )
                    },
                }
            },
        }
    }
}

pub open spec fn after_backoff(
    login: LoginView,
    request: Channel9LoginRequest,
    delay_ms: u64,
    now_ms: u64,
) -> LoginView {
    LoginView {
        pending_request: Some(request),
        message: "Network busy"@,
        next_poll_at: Some((now_ms + delay_ms) as u64),
        ..login
    }
}

/// Is the device holding an access token.
pub fn channel9_logged_in(config: &Channel9RuntimeConfig) -> (r: bool)
    ensures
        r == logged_in(config@),
{
    config.access_token.is_some()
}

/// Why a new device code cannot be requested: no device id (blank once
/// trimmed), or WiFi offline; `None` when nothing blocks it.
pub fn channel9_login_blocked_reason(config: &Channel9RuntimeConfig, wifi_connected: bool) -> (r:
    Option<Channel9LoginBlock>)
    ensures
        r == login_blocked(config@, wifi_connected),
{
    if is_blank(config.device_id.as_str()) {
        return Some(Channel9LoginBlock::DeviceMissing);
    }
    if !wifi_connected {
        return Some(Channel9LoginBlock::WifiOffline);
    }
    None
}

/// How long to wait between token polls, in milliseconds: the code's
/// interval clamped to 1..=60 seconds.
pub fn channel9_poll_interval(code: &DeviceCode) -> (r: u64)
    ensures
        r == poll_interval_ms(code@),
        1000 <= r <= MAX_POLL_INTERVAL_MS,
{
    let seconds: i64 = if code.interval_seconds < 1 {
        1
    } else if code.interval_seconds > 60 {
        60
    } else {
        code.interval_seconds
    };
    (seconds as u64) * 1000
}

/// Has the active code's activation window closed, with `unix_now` the
/// current time in seconds since the Unix epoch (`None` when the clock reads
/// before the epoch). No active code never counts as expired.
pub fn channel9_active_code_expired(login: &Channel9LoginState, unix_now: Option<u64>) -> (r: bool)
    ensures
        r == code_expired(login@, unix_now),
{
    match (&login.active_code, unix_now) {
        (Some(code), Some(now)) => (now as i64) >= code.activation_expires_at,
        _ => false,
    }
}

/// Queues a token poll when a code is waiting for approval, nothing is queued
/// or in flight, and the poll deadline has passed; drops an expired code.
/// Returns whether a poll was queued.
pub fn maybe_schedule_channel9_auto_poll(
    config: &Channel9RuntimeConfig,
    login: &mut Channel9LoginState,
    now_ms: u64,
    unix_now: Option<u64>,
) -> (r: bool)
    ensures
        (final(login)@, r) == after_auto_poll(config@, old(login)@, now_ms, unix_now),
{
    if channel9_logged_in(config) || login.active_code.is_none() || login.pending_request.is_some()
        || login.inflight_request.is_some() {
        return false;
    }
    if channel9_active_code_expired(login, unix_now) {
        login.active_code = None;
        login.next_poll_at = None;
        login.message = "Code expired".to_owned();
        return false;
    }
    let should_poll = match login.next_poll_at {
        Some(next) => now_ms >= next,
        None => true,
    };
    if !should_poll {
        return false;
    }
    login.pending_request = Some(Channel9LoginRequest::Poll);
    login.message = "Checking approval".to_owned();
    true
}

/// Turns the queued login step into a network request, unless one is in
/// flight or something blocks it; a blocked step leaves its reason as the
/// message and is dropped.
pub fn build_channel9_login_request(
    config: &Channel9RuntimeConfig,
    login: &mut Channel9LoginState,
    wifi_connected: bool,
    now_ms: u64,
    unix_now: Option<u64>,
) -> (r: Option<Channel9NetworkRequest>)
    requires
        now_ms <= u64::MAX - MAX_POLL_INTERVAL_MS,
    ensures
        (final(login)@, match r {
            Some(req) => Some(req@),
            None => None::<NetworkRequestView>,
        }) == after_build_login_request(config@, old(login)@, wifi_connected, now_ms, unix_now),
{
    if login.inflight_request.is_some() {
        return None;
    }
    let request = match login.pending_request.take() {
        Some(request) => request,
        None => return None,
    };
    login.message = String::new();
    let network_request = match request {
        Channel9LoginRequest::Create => {
            match channel9_login_blocked_reason(config, wifi_connected) {
                Some(reason) => {
                    login.message = reason.label().to_owned();
                    return None;
                },
                None => {},
            }
            Channel9NetworkRequest::CreateDeviceCode {
                api_base_url: config.api_base_url.clone(),
                device_id: config.device_id.clone(),
                description: config.description.clone(),
                interfaces: clone_strings(&config.interfaces),
            }
        },
        Channel9LoginRequest::Poll => {
            if !wifi_connected {
                login.next_poll_at = match &login.active_code {
                    Some(code) => Some(now_ms + channel9_poll_interval(code)),
                    None => None,
                };
                login.message = "WiFi offline".to_owned();
                return None;
            }
            if login.active_code.is_none() {
                login.message = "Create code first".to_owned();
                return None;
            }
            if channel9_active_code_expired(login, unix_now) {
                login.active_code = None;
                login.next_poll_at = None;
                login.message = "Code expired".to_owned();
                return None;
            }
            let device_code = match &login.active_code {
                Some(code) => code.device_code.clone(),
                None => {
                    login.message = "Create code first".to_owned();
                    return None;
                },
            };
            Channel9NetworkRequest::PollDeviceToken {
                api_base_url: config.api_base_url.clone(),
                device_code,
            }
        },
    };
    login.inflight_request = Some(request);
    Some(network_request)
}

/// Puts a login step back in the queue when the network worker is busy, to
/// be retried `delay_ms` after `now_ms`.
pub fn backoff_channel9_login_request(
    login: &mut Channel9LoginState,
    request: Channel9LoginRequest,
    delay_ms: u64,
    now_ms: u64,
)
    requires
        now_ms + delay_ms <= u64::MAX,
    ensures
        final(login)@ == after_backoff(old(login)@, request, delay_ms, now_ms),
{
    login.pending_request = Some(request);
    login.message = "Network busy".to_owned();
    login.next_poll_at = Some(now_ms + delay_ms);
}

/// "Waiting <user code>" for a code awaiting approval.
pub fn waiting_label(code: &DeviceCode) -> (r: String)
    ensures
        r@ == waiting_message(code@),
{
    let mut message = "Waiting ".to_owned();
    let user_code = format_user_code(code.user_code.as_str());
    push_str(&mut message, user_code.as_str());
    message
}

} // verus!
