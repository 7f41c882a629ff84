//! Data of the Channel9 device-code login and push polling, with the
//! mathematical view of each type that the contracts speak of.

use vstd::prelude::*;

verus! {

/// State of the push connection shown in the status area.
#[derive(Debug, Clone, Copy, PartialEq, Eq, Structural)]
pub enum StatusChannel9 {
    Off,
    Online,
    Failed,
}

/// A device code issued by the Channel9 API.
#[derive(Debug, Clone, PartialEq, Eq)]
pub struct DeviceCode {
    pub device_code: String,
    pub user_code: String,
    pub verification_uri: String,
    pub verification_uri_complete: String,
    pub expires_at: i64,
    pub activation_expires_at: i64,
    pub interval_seconds: i64,
}

pub struct DeviceCodeView {
    pub device_code: Seq<char>,
    pub user_code: Seq<char>,
    pub verification_uri: Seq<char>,
    pub verification_uri_complete: Seq<char>,
    pub expires_at: i64,
    pub activation_expires_at: i64,
    pub interval_seconds: i64,
}

impl View for DeviceCode {
    type V = DeviceCodeView;

    open spec fn view(&self) -> DeviceCodeView {
        DeviceCodeView {
            device_code: self.device_code@,
            user_code: self.user_code@,
            verification_uri: self.verification_uri@,
            verification_uri_complete: self.verification_uri_complete@,
            expires_at: self.expires_at,
            activation_expires_at: self.activation_expires_at,
            interval_seconds: self.interval_seconds,
        }
    }
}

/// An access token handed out once the user approved the device code.
#[derive(Debug, Clone, PartialEq, Eq)]
pub struct DeviceToken {
    pub access_token: String,
    pub token_type: String,
    pub expires_at: i64,
    pub workspace_id: String,
    pub device_id: String,
}

pub struct DeviceTokenView {
    pub access_token: Seq<char>,
    pub token_type: Seq<char>,
    pub expires_at: i64,
    pub workspace_id: Seq<char>,
    pub device_id: Seq<char>,
}

impl View for DeviceToken {
    type V = DeviceTokenView;

    open spec fn view(&self) -> DeviceTokenView {
        DeviceTokenView {
            access_token: self.access_token@,
            token_type: self.token_type@,
            expires_at: self.expires_at,
            workspace_id: self.workspace_id@,
            device_id: self.device_id@,
        }
    }
}

/// Answer to a token poll.
#[derive(Debug, Clone, PartialEq, Eq)]
pub enum PollToken {
    Pending,
    Approved(DeviceToken),
}

pub enum PollTokenView {
    Pending,
    Approved(DeviceTokenView),
}

impl View for PollToken {
    type V = PollTokenView;

    open spec fn view(&self) -> PollTokenView {
        match self {
            PollToken::Pending => PollTokenView::Pending,
            PollToken::Approved(t) => PollTokenView::Approved(t@),
        }
    }
}

/// One top-level field of a JSON object payload: its key, and its text when
/// the field's value is a JSON string.
#[derive(Debug, Clone, PartialEq, Eq)]
pub struct PayloadField {
    pub key: String,
    pub text: Option<String>,
}

pub struct PayloadFieldView {
    pub key: Seq<char>,
    pub text: Option<Seq<char>>,
}

impl View for PayloadField {
    type V = PayloadFieldView;

    open spec fn view(&self) -> PayloadFieldView {
        PayloadFieldView { key: self.key@, text: opt_string_view(&self.text) }
    }
}

/// The JSON payload of a push message, as far as the device reads it.
#[derive(Debug, Clone, PartialEq, Eq)]
pub enum PushPayload {
    /// A JSON object: its fields in document order.
    Object(Vec<PayloadField>),
    /// A JSON string.
    Text(String),
    /// Any other JSON value.
    Other,
}

pub enum PushPayloadView {
    Object(Seq<PayloadFieldView>),
    Text(Seq<char>),
    Other,
}

impl View for PushPayload {
    type V = PushPayloadView;

    open spec fn view(&self) -> PushPayloadView {
        match self {
            PushPayload::Object(fields) => PushPayloadView::Object(
                fields@.map_values(|f: PayloadField| f@),
            ),
            PushPayload::Text(s) => PushPayloadView::Text(s@),
            PushPayload::Other => PushPayloadView::Other,
        }
    }
}

/// A push message delivered to the device.
#[derive(Debug, Clone, PartialEq, Eq)]
pub struct DeviceMessage {
    pub cursor: String,
    pub message_id: String,
    pub target_interface: Option<String>,
    pub payload: PushPayload,
}

pub struct DeviceMessageView {
    pub cursor: Seq<char>,
    pub message_id: Seq<char>,
    pub target_interface: Option<Seq<char>>,
    pub payload: PushPayloadView,
}

impl View for DeviceMessage {
    type V = DeviceMessageView;

    open spec fn view(&self) -> DeviceMessageView {
        DeviceMessageView {
            cursor: self.cursor@,
            message_id: self.message_id@,
            target_interface: opt_string_view(&self.target_interface),
            payload: self.payload@,
        }
    }
}

/// Result of one fetch of the event stream.
#[derive(Debug, Clone, PartialEq, Eq)]
pub struct DeviceEvents {
    pub connected: bool,
    pub messages: Vec<DeviceMessage>,
}

pub struct DeviceEventsView {
    pub connected: bool,
    pub messages: Seq<DeviceMessageView>,
}

impl View for DeviceEvents {
    type V = DeviceEventsView;

    open spec fn view(&self) -> DeviceEventsView {
        DeviceEventsView {
            connected: self.connected,
            messages: self.messages@.map_values(|m: DeviceMessage| m@),
        }
    }
}

/// The login step that is queued or on the network.
#[derive(Debug, Clone, Copy, PartialEq, Eq, Structural)]
pub enum Channel9LoginRequest {
    Create,
    Poll,
}

/// Login state. Instants are milliseconds on the caller's monotonic clock.
#[derive(Debug, Clone, PartialEq, Eq)]
pub struct Channel9LoginState {
    pub active_code: Option<DeviceCode>,
    pub message: String,
    pub pending_request: Option<Channel9LoginRequest>,
    pub inflight_request: Option<Channel9LoginRequest>,
    pub next_poll_at: Option<u64>,
    pub logout_confirm: bool,
}

pub struct LoginView {
    pub active_code: Option<DeviceCodeView>,
    pub message: Seq<char>,
    pub pending_request: Option<Channel9LoginRequest>,
    pub inflight_request: Option<Channel9LoginRequest>,
    pub next_poll_at: Option<u64>,
    pub logout_confirm: bool,
}

impl View for Channel9LoginState {
    type V = LoginView;

    open spec fn view(&self) -> LoginView {
        LoginView {
            active_code: opt_code_view(&self.active_code),
            message: self.message@,
            pending_request: self.pending_request,
            inflight_request: self.inflight_request,
            next_poll_at: self.next_poll_at,
            logout_confirm: self.logout_confirm,
        }
    }
}

impl Default for Channel9LoginState {
    fn default() -> (s: Self)
        ensures
            s@ == (LoginView {
                active_code: None,
                message: Seq::empty(),
                pending_request: None,
                inflight_request: None,
                next_poll_at: None,
                logout_confirm: false,
            }),
    {
        Channel9LoginState {
            active_code: None,
            message: String::new(),
            pending_request: None,
            inflight_request: None,
            next_poll_at: None,
            logout_confirm: false,
        }
    }
}

/// Push polling state. Instants are milliseconds on the caller's monotonic clock.
#[derive(Debug, Clone, PartialEq, Eq)]
pub struct Channel9PushState {
    pub status: StatusChannel9,
    pub suggestion: String,
    pub detail: String,
    pub message_count: usize,
    pub last_cursor: Option<String>,
    pub next_fetch_at: Option<u64>,
    pub consecutive_failures: u8,
    pub fetch_in_flight: bool,
}

pub struct PushView {
    pub status: StatusChannel9,
    pub suggestion: Seq<char>,
    pub detail: Seq<char>,
    pub message_count: usize,
    pub last_cursor: Option<Seq<char>>,
    pub next_fetch_at: Option<u64>,
    pub consecutive_failures: u8,
    pub fetch_in_flight: bool,
}

impl View for Channel9PushState {
    type V = PushView;

    open spec fn view(&self) -> PushView {
        PushView {
            status: self.status,
            suggestion: self.suggestion@,
            detail: self.detail@,
            message_count: self.message_count,
            last_cursor: opt_string_view(&self.last_cursor),
            next_fetch_at: self.next_fetch_at,
            consecutive_failures: self.consecutive_failures,
            fetch_in_flight: self.fetch_in_flight,
        }
    }
}

/// The push state before anything was received.
pub open spec fn default_push_view() -> PushView {
    PushView {
        status: StatusChannel9::Off,
        suggestion: "No pushes yet"@,
        detail: "Waiting for push"@,
        message_count: 0,
        last_cursor: None,
        next_fetch_at: None,
        consecutive_failures: 0,
        fetch_in_flight: false,
    }
}

impl Default for Channel9PushState {
    fn default() -> (s: Self)
        ensures
            s@ == default_push_view(),
    {
        Channel9PushState {
            status: StatusChannel9::Off,
            suggestion: "No pushes yet".to_owned(),
            detail: "Waiting for push".to_owned(),
            message_count: 0,
            last_cursor: None,
            next_fetch_at: None,
            consecutive_failures: 0,
            fetch_in_flight: false,
        }
    }
}

/// What a push step changed: whether to repaint, and how many messages arrived.
#[derive(Debug, Clone, Copy, PartialEq, Eq, Default, Structural)]
pub struct Channel9SseDrain {
    pub changed: bool,
    pub new_messages: usize,
}

/// What a network answer changed: whether to repaint, and how many messages arrived.
#[derive(Debug, Clone, Copy, PartialEq, Eq, Default, Structural)]
pub struct Channel9NetworkDrain {
    pub changed: bool,
    pub new_messages: usize,
}

/// A request for the network worker.
#[derive(Debug, Clone, PartialEq, Eq)]
pub enum Channel9NetworkRequest {
    CreateDeviceCode {
        api_base_url: String,
        device_id: String,
        description: String,
        interfaces: Vec<String>,
    },
    PollDeviceToken { api_base_url: String, device_code: String },
    FetchDeviceEvents {
        api_base_url: String,
        device_id: String,
        access_token: String,
        interfaces: Vec<String>,
        cursor: Option<String>,
    },
}

pub enum NetworkRequestView {
    CreateDeviceCode {
        api_base_url: Seq<char>,
        device_id: Seq<char>,
        description: Seq<char>,
        interfaces: Seq<Seq<char>>,
    },
    PollDeviceToken { api_base_url: Seq<char>, device_code: Seq<char> },
    FetchDeviceEvents {
        api_base_url: Seq<char>,
        device_id: Seq<char>,
        access_token: Seq<char>,
        interfaces: Seq<Seq<char>>,
        cursor: Option<Seq<char>>,
    },
}

impl View for Channel9NetworkRequest {
    type V = NetworkRequestView;

    open spec fn view(&self) -> NetworkRequestView {
        match self {
            Channel9NetworkRequest::CreateDeviceCode {
                api_base_url,
                device_id,
                description,
                interfaces,
            } => NetworkRequestView::CreateDeviceCode {
                api_base_url: api_base_url@,
                device_id: device_id@,
                description: description@,
                interfaces: strings_view(interfaces@),
            },
            Channel9NetworkRequest::PollDeviceToken { api_base_url, device_code } =>
                NetworkRequestView::PollDeviceToken {
                api_base_url: api_base_url@,
                device_code: device_code@,
            },
            Channel9NetworkRequest::FetchDeviceEvents {
                api_base_url,
                device_id,
                access_token,
                interfaces,
                cursor,
            } => NetworkRequestView::FetchDeviceEvents {
                api_base_url: api_base_url@,
                device_id: device_id@,
                access_token: access_token@,
                interfaces: strings_view(interfaces@),
                cursor: opt_string_view(cursor),
            },
        }
    }
}

/// An answer from the network worker.
#[derive(Debug, PartialEq, Eq)]
pub enum Channel9NetworkResponse {
    DeviceCode { device_id: String, result: Result<DeviceCode, String> },
    DeviceToken { device_code: String, result: Result<PollToken, String> },
    DeviceEvents(Result<DeviceEvents, String>),
}

pub enum NetworkResponseView {
    DeviceCode { device_id: Seq<char>, result: Result<DeviceCodeView, Seq<char>> },
    DeviceToken { device_code: Seq<char>, result: Result<PollTokenView, Seq<char>> },
    DeviceEvents(Result<DeviceEventsView, Seq<char>>),
}

impl View for Channel9NetworkResponse {
    type V = NetworkResponseView;

    open spec fn view(&self) -> NetworkResponseView {
        match self {
            Channel9NetworkResponse::DeviceCode { device_id, result } =>
                NetworkResponseView::DeviceCode {
                device_id: device_id@,
                result: match result {
                    Ok(c) => Ok(c@),
                    Err(e) => Err(e@),
                },
            },
            Channel9NetworkResponse::DeviceToken { device_code, result } =>
                NetworkResponseView::DeviceToken {
                device_code: device_code@,
                result: match result {
                    Ok(t) => Ok(t@),
                    Err(e) => Err(e@),
                },
            },
            Channel9NetworkResponse::DeviceEvents(result) => NetworkResponseView::DeviceEvents(
                match result {
                    Ok(ev) => Ok(ev@),
                    Err(e) => Err(e@),
                },
            ),
        }
    }
}

/// Channel9 settings the runtime reads and updates.
#[derive(Debug, Clone, PartialEq, Eq)]
pub struct Channel9RuntimeConfig {
    pub api_base_url: String,
    pub device_id: String,
    pub description: String,
    pub interfaces: Vec<String>,
    pub workspace_id: String,
    pub access_token: Option<String>,
    pub token_expires_at: Option<i64>,
}

pub struct RuntimeConfigView {
    pub api_base_url: Seq<char>,
    pub device_id: Seq<char>,
    pub description: Seq<char>,
    pub interfaces: Seq<Seq<char>>,
    pub workspace_id: Seq<char>,
    pub access_token: Option<Seq<char>>,
    pub token_expires_at: Option<i64>,
}

impl View for Channel9RuntimeConfig {
    type V = RuntimeConfigView;

    open spec fn view(&self) -> RuntimeConfigView {
        RuntimeConfigView {
            api_base_url: self.api_base_url@,
            device_id: self.device_id@,
            description: self.description@,
            interfaces: strings_view(self.interfaces@),
            workspace_id: self.workspace_id@,
            access_token: opt_string_view(&self.access_token),
            token_expires_at: self.token_expires_at,
        }
    }
}

/// Why a login cannot start.
#[derive(Debug, Clone, Copy, PartialEq, Eq, Structural)]
pub enum Channel9LoginBlock {
    DeviceMissing,
    WifiOffline,
}

pub open spec fn opt_string_view(s: &Option<String>) -> Option<Seq<char>> {
    match s {
        Some(v) => Some(v@),
        None => None,
    }
}

pub open spec fn opt_code_view(c: &Option<DeviceCode>) -> Option<DeviceCodeView> {
    match c {
        Some(v) => Some(v@),
        None => None,
    }
}

pub open spec fn strings_view(v: Seq<String>) -> Seq<Seq<char>> {
    v.map_values(|s: String| s@)
}

/// A copy of an optional string.
pub fn clone_opt_string(s: &Option<String>) -> (r: Option<String>)
    ensures
        opt_string_view(&r) == opt_string_view(s),
{
    match s {
        Some(v) => Some(v.clone()),
        None => None,
    }
}

/// A copy of a list of strings.
pub fn clone_strings(v: &Vec<String>) -> (r: Vec<String>)
    ensures
        strings_view(r@) == strings_view(v@),
{
    let mut r: Vec<String> = Vec::new();
    let mut i: usize = 0;
    while i < v.len()
        invariant
            i <= v.len(),
            strings_view(r@) == strings_view(v@.take(i as int)),
        decreases v.len() - i,
    {
        r.push(v[i].clone());
        assert(strings_view(v@.take(i + 1)) =~= strings_view(v@.take(i as int)).push(v@[i as int]@));
        assert(strings_view(r@) =~= strings_view(v@.take(i as int)).push(v@[i as int]@));
        i += 1;
    }
    assert(v@.take(v.len() as int) =~= v@);
    r
}

} // verus!
