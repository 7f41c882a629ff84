//! What the menus work on: the screen shown, the data the screens edit, and
//! what a key press asks of the firmware around them.

use vstd::prelude::*;

use crate::config::{AppConfig, AppConfigView, CredentialView, WifiCredential};
use crate::runtime::types::{opt_code_view, strings_view, DeviceCode, DeviceCodeView};
use crate::wifi::{networks_view, WifiNetwork, WifiNetworkView};

verus! {

/// The field edited on the Channel9 text-input screen.
#[derive(Debug, Clone, Copy, PartialEq, Eq, Structural)]
pub enum Channel9InputField {
    Device,
}

/// The screen on display, with the row selected where it has rows.
#[derive(Debug, Clone, Copy, PartialEq, Eq, Structural)]
pub enum Screen {
    Home,
    Config { selected: usize },
    Wifi { selected: usize },
    WifiSaved { selected: usize },
    WifiScan { selected: usize },
    WifiPassword { network_index: usize },
    WifiResult,
    Storage { selected: usize },
    Device,
    Files,
    Time { selected: usize },
    Audio { selected: usize },
    Channel9 { selected: usize },
    Channel9Input { field: Channel9InputField },
    Recorder { selected: usize },
    Recording,
    RecorderMessage,
}

/// A voice note on the card.
#[derive(Debug, Clone, PartialEq, Eq)]
pub struct RecordingItem {
    pub name: String,
    pub path: String,
    pub size_bytes: u64,
}

pub struct RecordingView {
    pub name: Seq<char>,
    pub path: Seq<char>,
    pub size_bytes: u64,
}

impl View for RecordingItem {
    type V = RecordingView;

    open spec fn view(&self) -> RecordingView {
        RecordingView { name: self.name@, path: self.path@, size_bytes: self.size_bytes }
    }
}

pub open spec fn recordings_view(v: Seq<RecordingItem>) -> Seq<RecordingView> {
    v.map_values(|r: RecordingItem| r@)
}

/// The menu's side of the device-code login: the code being shown and the
/// last message.
#[derive(Debug, Clone, PartialEq, Eq)]
pub struct MenuLoginState {
    pub active_code: Option<DeviceCode>,
    pub message: String,
}

pub struct MenuLoginView {
    pub active_code: Option<DeviceCodeView>,
    pub message: Seq<char>,
}

impl View for MenuLoginState {
    type V = MenuLoginView;

    open spec fn view(&self) -> MenuLoginView {
        MenuLoginView { active_code: opt_code_view(&self.active_code), message: self.message@ }
    }
}

impl Default for MenuLoginState {
    fn default() -> (r: Self)
        ensures
            r@.active_code is None,
            r@.message.len() == 0,
    {
        MenuLoginState { active_code: None, message: String::new() }
    }
}

/// Everything the screens read and edit.
pub struct ScreenState {
    pub config: AppConfig,
    pub scan_results: Vec<WifiNetwork>,
    pub recordings: Vec<RecordingItem>,
    pub password_input: String,
    pub channel9_input: String,
    pub login: MenuLoginState,
}

pub struct ScreenStateView {
    pub config: AppConfigView,
    pub scan_results: Seq<WifiNetworkView>,
    pub recordings: Seq<RecordingView>,
    pub password_input: Seq<char>,
    pub channel9_input: Seq<char>,
    pub login: MenuLoginView,
}

impl View for ScreenState {
    type V = ScreenStateView;

    open spec fn view(&self) -> ScreenStateView {
        ScreenStateView {
            config: self.config@,
            scan_results: networks_view(self.scan_results@),
            recordings: recordings_view(self.recordings@),
            password_input: self.password_input@,
            channel9_input: self.channel9_input@,
            login: self.login@,
        }
    }
}

/// What the hardware reports when a key arrives, and a fresh random number
/// for naming the device.
#[derive(Debug, Clone, Copy, PartialEq, Eq, Structural)]
pub struct ScreenEnv {
    pub wifi_available: bool,
    pub wifi_connected: bool,
    pub sdcard_mounted: bool,
    pub random: u32,
}

/// Work the firmware does after a key press, in order, before showing the
/// next screen.
#[derive(Debug, Clone, PartialEq, Eq)]
pub enum ScreenEffect {
    SaveConfig,
    StartTimeSync,
    SyncTimeNow,
    ApplySpeakerVolume,
    DeleteVoiceNote(String),
    PlayVoiceNote(String),
}

pub enum EffectView {
    SaveConfig,
    StartTimeSync,
    SyncTimeNow,
    ApplySpeakerVolume,
    DeleteVoiceNote(Seq<char>),
    PlayVoiceNote(Seq<char>),
}

impl View for ScreenEffect {
    type V = EffectView;

    open spec fn view(&self) -> EffectView {
        match self {
            ScreenEffect::SaveConfig => EffectView::SaveConfig,
            ScreenEffect::StartTimeSync => EffectView::StartTimeSync,
            ScreenEffect::SyncTimeNow => EffectView::SyncTimeNow,
            ScreenEffect::ApplySpeakerVolume => EffectView::ApplySpeakerVolume,
            ScreenEffect::DeleteVoiceNote(p) => EffectView::DeleteVoiceNote(p@),
            ScreenEffect::PlayVoiceNote(p) => EffectView::PlayVoiceNote(p@),
        }
    }
}

pub open spec fn effects_view(v: Seq<ScreenEffect>) -> Seq<EffectView> {
    v.map_values(|e: ScreenEffect| e@)
}

/// A call whose answer decides the next screen; the matching `after_*`
/// function takes the answer.
#[derive(Debug, Clone, PartialEq, Eq)]
pub enum ScreenTask {
    ScanWifi { selected: usize },
    ConnectWifi { credential: WifiCredential },
    CreateDeviceCode {
        device_id: String,
        description: String,
        interfaces: Vec<String>,
        return_to: Screen,
    },
    PollDeviceToken { device_code: String, user_code: String, return_to: Screen },
    ReloadRecordings { selected: usize },
}

pub enum TaskView {
    ScanWifi { selected: usize },
    ConnectWifi { credential: CredentialView },
    CreateDeviceCode {
        device_id: Seq<char>,
        description: Seq<char>,
        interfaces: Seq<Seq<char>>,
        return_to: Screen,
    },
    PollDeviceToken { device_code: Seq<char>, user_code: Seq<char>, return_to: Screen },
    ReloadRecordings { selected: usize },
}

impl View for ScreenTask {
    type V = TaskView;

    open spec fn view(&self) -> TaskView {
        match self {
            ScreenTask::ScanWifi { selected } => TaskView::ScanWifi { selected: *selected },
            ScreenTask::ConnectWifi { credential } => TaskView::ConnectWifi {
                credential: credential@,
            },
            ScreenTask::CreateDeviceCode { device_id, description, interfaces, return_to } =>
                TaskView::CreateDeviceCode {
                device_id: device_id@,
                description: description@,
                interfaces: strings_view(interfaces@),
                return_to: *return_to,
            },
            ScreenTask::PollDeviceToken { device_code, user_code, return_to } =>
                TaskView::PollDeviceToken {
                device_code: device_code@,
                user_code: user_code@,
                return_to: *return_to,
            },
            ScreenTask::ReloadRecordings { selected } => TaskView::ReloadRecordings {
                selected: *selected,
            },
        }
    }
}

/// The next screen, or the call to make before there is one.
#[derive(Debug, Clone, PartialEq, Eq)]
pub enum ScreenNext {
    Show(Screen),
    Await(ScreenTask),
}

pub enum NextView {
    Show(Screen),
    Await(TaskView),
}

impl View for ScreenNext {
    type V = NextView;

    open spec fn view(&self) -> NextView {
        match self {
            ScreenNext::Show(s) => NextView::Show(*s),
            ScreenNext::Await(t) => NextView::Await(t@),
        }
    }
}

/// The answer to a key press: work to do, then the next screen or call.
#[derive(Debug, Clone, PartialEq, Eq)]
pub struct ScreenStep {
    pub effects: Vec<ScreenEffect>,
    pub next: ScreenNext,
}

pub struct StepView {
    pub effects: Seq<EffectView>,
    pub next: NextView,
}

impl View for ScreenStep {
    type V = StepView;

    open spec fn view(&self) -> StepView {
        StepView { effects: effects_view(self.effects@), next: self.next@ }
    }
}

/// A copy of a device code.
pub fn clone_device_code(c: &DeviceCode) -> (r: DeviceCode)
    ensures
        r@ == c@,
{
    DeviceCode {
        device_code: c.device_code.clone(),
        user_code: c.user_code.clone(),
        verification_uri: c.verification_uri.clone(),
        verification_uri_complete: c.verification_uri_complete.clone(),
        expires_at: c.expires_at,
        activation_expires_at: c.activation_expires_at,
        interval_seconds: c.interval_seconds,
    }
}

/// A copy of a scanned network.
pub fn clone_network(n: &WifiNetwork) -> (r: WifiNetwork)
    ensures
        r@ == n@,
{
    WifiNetwork {
        ssid: n.ssid.clone(),
        channel: n.channel,
        signal_dbm: n.signal_dbm,
        auth_method: n.auth_method,
    }
}

} // verus!
