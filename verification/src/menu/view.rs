//! What each screen shows: its title, rows and footer, built from the
//! screen data and what the hardware reports. Drawing them is left to the
//! display code.

use vstd::prelude::*;

use crate::board::{AudioStatus, ImuStatus};
use crate::config::CredentialView;
use crate::menu::labels::{
    audio_status_label, audio_text, ble_status_label, ble_status_word, bool_label,
    channel9_epoch_label, channel9_login_ready, channel9_logged_in, channel9_user_code_label, config_logged_in, dns_label, dns_text, empty_dns_label, epoch_text,
    imu_status_label, imu_text, menu_login_block, percent_label, percent_text,
    recording_size_label, recording_size_text, saved_network_count_label, signal_label,
    signal_word, time_status_label, time_status_word, timezone_offset_label, timezone_text,
    truncate_runtime_label, truncated_runtime_text, user_code_row, wifi_status_label,
    wifi_status_word, BleStatus, TimeSyncStatus,
};
use crate::menu::navigation::sat_sub;
use crate::menu::state::{
    RecordingView, Screen, ScreenState, ScreenStateView,
};
use crate::runtime::types::opt_string_view;
use crate::text::byte_len;
use crate::wifi::{ConnectionInfoView, WifiConnectionInfo, WifiNetworkView, WifiStatus};

verus! {

/// One row of a settings screen.
#[derive(Debug, Clone, PartialEq, Eq)]
pub struct SettingItem {
    pub label: String,
    pub value: String,
    pub selected: bool,
    pub enabled: bool,
}

pub struct RowView {
    pub label: Seq<char>,
    pub value: Seq<char>,
    pub selected: bool,
    pub enabled: bool,
}

impl View for SettingItem {
    type V = RowView;

    open spec fn view(&self) -> RowView {
        RowView {
            label: self.label@,
            value: self.value@,
            selected: self.selected,
            enabled: self.enabled,
        }
    }
}

pub open spec fn rows_view(v: Seq<SettingItem>) -> Seq<RowView> {
    v.map_values(|r: SettingItem| r@)
}

/// One entry of the configuration menu.
#[derive(Debug, Clone, PartialEq, Eq)]
pub struct MenuItem {
    pub label: String,
    pub selected: bool,
    pub enabled: bool,
}

pub struct MenuItemView {
    pub label: Seq<char>,
    pub selected: bool,
    pub enabled: bool,
}

impl View for MenuItem {
    type V = MenuItemView;

    open spec fn view(&self) -> MenuItemView {
        MenuItemView { label: self.label@, selected: self.selected, enabled: self.enabled }
    }
}

pub open spec fn menu_items_view(v: Seq<MenuItem>) -> Seq<MenuItemView> {
    v.map_values(|m: MenuItem| m@)
}

/// What the home screen shows: a suggestion and its detail, the storage
/// root, and whether WiFi joins at startup and the card is mounted.
#[derive(Debug, Clone, PartialEq, Eq)]
pub struct HomeView {
    pub suggestion: String,
    pub detail: String,
    pub storage_label: String,
    pub wifi_enabled: bool,
    pub sd_mounted: bool,
}

pub struct HomeShown {
    pub suggestion: Seq<char>,
    pub detail: Seq<char>,
    pub storage_label: Seq<char>,
    pub wifi_enabled: bool,
    pub sd_mounted: bool,
}

impl View for HomeView {
    type V = HomeShown;

    open spec fn view(&self) -> HomeShown {
        HomeShown {
            suggestion: self.suggestion@,
            detail: self.detail@,
            storage_label: self.storage_label@,
            wifi_enabled: self.wifi_enabled,
            sd_mounted: self.sd_mounted,
        }
    }
}

/// A screen ready to draw.
#[derive(Debug, Clone, PartialEq, Eq)]
pub enum ScreenView {
    Home(HomeView),
    Menu { items: Vec<MenuItem>, footer: String },
    Settings { title: String, subtitle: String, items: Vec<SettingItem>, footer: String },
    WifiStatus {
        status: String,
        ssid: String,
        ip: String,
        dns: String,
        message: String,
        footer: String,
    },
    Password { ssid: String, password_len: usize, footer: String },
    FileList { path: String, footer: String },
}

pub enum ViewV {
    Home(HomeShown),
    Menu { items: Seq<MenuItemView>, footer: Seq<char> },
    Settings { title: Seq<char>, subtitle: Seq<char>, items: Seq<RowView>, footer: Seq<char> },
    WifiStatus {
        status: Seq<char>,
        ssid: Seq<char>,
        ip: Seq<char>,
        dns: Seq<char>,
        message: Seq<char>,
        footer: Seq<char>,
    },
    Password { ssid: Seq<char>, password_len: usize, footer: Seq<char> },
    FileList { path: Seq<char>, footer: Seq<char> },
}

impl View for ScreenView {
    type V = ViewV;

    open spec fn view(&self) -> ViewV {
        match self {
            ScreenView::Home(home) => ViewV::Home(home@),
            ScreenView::Menu { items, footer } => ViewV::Menu {
                items: menu_items_view(items@),
                footer: footer@,
            },
            ScreenView::Settings { title, subtitle, items, footer } => ViewV::Settings {
                title: title@,
                subtitle: subtitle@,
                items: rows_view(items@),
                footer: footer@,
            },
            ScreenView::WifiStatus { status, ssid, ip, dns, message, footer } => ViewV::WifiStatus {
                status: status@,
                ssid: ssid@,
                ip: ip@,
                dns: dns@,
                message: message@,
                footer: footer@,
            },
            ScreenView::Password { ssid, password_len, footer } => ViewV::Password {
                ssid: ssid@,
                password_len: *password_len,
                footer: footer@,
            },
            ScreenView::FileList { path, footer } => ViewV::FileList {
                path: path@,
                footer: footer@,
            },
        }
    }
}

/// What the WiFi driver reports.
#[derive(Debug, Clone, PartialEq, Eq)]
pub struct WifiSnapshot {
    pub status: WifiStatus,
    pub last_ssid: Option<String>,
    pub last_error: Option<String>,
    pub connection: Option<WifiConnectionInfo>,
}

pub struct WifiSnapshotView {
    pub status: WifiStatus,
    pub last_ssid: Option<Seq<char>>,
    pub last_error: Option<Seq<char>>,
    pub connection: Option<ConnectionInfoView>,
}

impl View for WifiSnapshot {
    type V = WifiSnapshotView;

    open spec fn view(&self) -> WifiSnapshotView {
        WifiSnapshotView {
            status: self.status,
            last_ssid: opt_string_view(&self.last_ssid),
            last_error: opt_string_view(&self.last_error),
            connection: match self.connection {
                Some(c) => Some(c@),
                None => None,
            },
        }
    }
}

/// What the hardware reports when a screen is drawn. `wifi` and `ble` are
/// `None` where the radio could not be set up; `time_status` is read only
/// for the time screen.
pub struct RenderEnv {
    pub wifi: Option<WifiSnapshot>,
    pub ble: Option<BleStatus>,
    pub sdcard_mounted: bool,
    pub keyboard_available: bool,
    pub imu: ImuStatus,
    pub audio: AudioStatus,
    pub voice_recorder_available: bool,
    pub voice_recording_active: bool,
    pub time_status: TimeSyncStatus,
}

pub struct RenderEnvView {
    pub wifi: Option<WifiSnapshotView>,
    pub ble: Option<BleStatus>,
    pub sdcard_mounted: bool,
    pub keyboard_available: bool,
    pub imu: ImuStatus,
    pub audio: AudioStatus,
    pub voice_recorder_available: bool,
    pub voice_recording_active: bool,
    pub time_status: TimeSyncStatus,
}

impl View for RenderEnv {
    type V = RenderEnvView;

    open spec fn view(&self) -> RenderEnvView {
        RenderEnvView {
            wifi: match self.wifi {
                Some(w) => Some(w@),
                None => None,
            },
            ble: self.ble,
            sdcard_mounted: self.sdcard_mounted,
            keyboard_available: self.keyboard_available,
            imu: self.imu,
            audio: self.audio,
            voice_recorder_available: self.voice_recorder_available,
            voice_recording_active: self.voice_recording_active,
            time_status: self.time_status,
        }
    }
}

pub open spec fn wifi_connected(env: RenderEnvView) -> bool {
    env.wifi matches Some(w) && w.status == WifiStatus::Connected
}

pub open spec fn on_off(b: bool) -> Seq<char> {
    if b {
        "ON"@
    } else {
        "OFF"@
    }
}

pub open spec fn row(label: Seq<char>, value: Seq<char>, selected: bool, enabled: bool) -> RowView {
    RowView { label, value, selected, enabled }
}

/// The rows shown of a list: four from three above the selection, with the
/// selection marked.
pub open spec fn window(items: Seq<RowView>, selected: usize) -> Seq<RowView> {
    let start = sat_sub(selected, 3) as int;
    if start >= items.len() {
        Seq::empty()
    } else {
        let count = if items.len() - start < 4 {
            items.len() - start
        } else {
            4
        };
        Seq::new(
            count as nat,
            |i: int| RowView { selected: start + i == selected, ..items[start + i] },
        )
    }
}

pub open spec fn settings(
    title: Seq<char>,
    subtitle: Seq<char>,
    items: Seq<RowView>,
    footer: Seq<char>,
) -> ViewV {
    ViewV::Settings { title, subtitle, items, footer }
}

/// The labels of the configuration menu.
pub open spec fn config_labels() -> Seq<Seq<char>> {
    seq!["WiFi"@, "Storage"@, "Device"@, "Files"@, "Time"@, "Audio"@, "Channel9"@, "Recorder"@]
}

pub open spec fn home_view(s: ScreenStateView, env: RenderEnvView) -> ViewV {
    ViewV::Home(HomeShown {
        suggestion: "No pushes yet"@,
        detail: if wifi_connected(env) {
            "WiFi connected"@
        } else {
            "Open config to setup WiFi"@
        },
        storage_label: s.config.storage.sdcard_mount_path,
        wifi_enabled: s.config.wifi.connect_at_startup,
        sd_mounted: env.sdcard_mounted,
    })
}

pub open spec fn config_items(selected: usize) -> Seq<MenuItemView> {
    Seq::new(
        8,
        |i: int| MenuItemView { label: config_labels()[i], selected: i == selected, enabled: true },
    )
}

pub open spec fn config_view(selected: usize) -> ViewV {
    ViewV::Menu {
        items: config_items(selected),
        footer: "SEL: Open  ESC: Back"@,
    }
}

pub open spec fn wifi_rows(s: ScreenStateView, env: RenderEnvView) -> Seq<RowView> {
    let saved = s.config.wifi.credentials.len();
    let status_text = match env.wifi {
        Some(w) => if w.status == WifiStatus::Connected {
            "online"@
        } else if w.status == WifiStatus::Failed {
            "failed"@
        } else if saved == 0 {
            "0"@
        } else {
            "saved"@
        },
        None => if saved == 0 {
            "0"@
        } else {
            "saved"@
        },
    };
    let count_text = if saved == 0 {
        "0"@
    } else if saved == 1 {
        "1"@
    } else {
        "many"@
    };
    seq![
        row("Auto Connect"@, on_off(s.config.wifi.connect_at_startup), false, true),
        row("Status"@, status_text, false, true),
        row("Saved Networks"@, count_text, false, saved > 0),
        row(
            "Scan Networks"@,
            if env.wifi is Some {
                "scan"@
            } else {
                "no wifi"@
            },
            false,
            env.wifi is Some,
        ),
        row("Back"@, Seq::empty(), false, true),
    ]
}

pub open spec fn wifi_result_view(s: ScreenStateView, env: RenderEnvView) -> ViewV {
    let info = match env.wifi {
        Some(w) => w.connection,
        None => None,
    };
    let ssid = match info {
        Some(i) => i.ssid,
        None => match env.wifi {
            Some(w) if w.last_ssid is Some => w.last_ssid->0,
            _ => if s.config.wifi.credentials.len() > 0 {
                s.config.wifi.credentials[0].ssid
            } else {
                "-"@
            },
        },
    };
    ViewV::WifiStatus {
        status: match env.wifi {
            Some(w) => wifi_status_word(w.status),
            None => "unavailable"@,
        },
        ssid,
        ip: match info {
            Some(i) => i.ip,
            None => "-"@,
        },
        dns: match info {
            Some(i) => dns_text(i.dns_primary, i.dns_secondary),
            None => "-"@,
        },
        message: match env.wifi {
            Some(w) if w.last_error is Some => w.last_error->0,
            _ => Seq::empty(),
        },
        footer: "Enter/ESC: Back"@,
    }
}

pub open spec fn saved_rows(creds: Seq<CredentialView>, env: RenderEnvView) -> Seq<RowView> {
    let active = match env.wifi {
        Some(w) => w.last_ssid,
        None => None,
    };
    Seq::new(
        creds.len(),
        |i: int|
            row(
                creds[i].ssid,
                if active == Some(creds[i].ssid) {
                    "active"@
                } else {
                    "saved"@
                },
                false,
                env.wifi is Some,
            ),
    )
}

pub open spec fn scan_rows(networks: Seq<WifiNetworkView>) -> Seq<RowView> {
    Seq::new(
        networks.len(),
        |i: int| row(networks[i].ssid, signal_word(networks[i].signal_dbm), false, true),
    )
}

pub open spec fn storage_rows(s: ScreenStateView, env: RenderEnvView, selected: usize) -> Seq<RowView> {
    seq![
        row("Prefer SD"@, on_off(s.config.storage.prefer_sdcard), selected == 0, true),
        row("Mount Path"@, s.config.storage.sdcard_mount_path, selected == 1, false),
        row(
            "Files"@,
            if env.sdcard_mounted {
                "open"@
            } else {
                "no sd"@
            },
            selected == 2,
            env.sdcard_mounted,
        ),
        row("Back"@, Seq::empty(), selected == 3, true),
    ]
}

pub open spec fn device_rows(s: ScreenStateView, env: RenderEnvView) -> Seq<RowView> {
    seq![
        row("Keyboard"@, on_off(env.keyboard_available), false, env.keyboard_available),
        row("IMU"@, imu_text(env.imu), false, env.imu.present),
        row(
            "Audio"@,
            audio_text(env.audio, s.config.audio.speaker_volume_percent),
            false,
            env.audio.codec_present,
        ),
        row(
            "BLE"@,
            match env.ble {
                Some(b) => ble_status_word(b),
                None => "missing"@,
            },
            false,
            env.ble is Some,
        ),
        row("SD"@, on_off(env.sdcard_mounted), false, env.sdcard_mounted),
    ]
}

pub open spec fn time_rows(s: ScreenStateView, env: RenderEnvView) -> Seq<RowView> {
    seq![
        row("Auto Sync"@, on_off(s.config.time.sync_at_startup), false, true),
        row("SNTP Server"@, s.config.time.sntp_server, false, true),
        row("UTC Offset"@, timezone_text(s.config.time.timezone_offset_minutes), false, true),
        row("Sync Now"@, time_status_word(env.time_status), false, wifi_connected(env)),
        row("Back"@, Seq::empty(), false, true),
    ]
}

pub open spec fn audio_rows(s: ScreenStateView, env: RenderEnvView, selected: usize) -> Seq<RowView> {
    seq![
        row(
            "Volume"@,
            percent_text(s.config.audio.speaker_volume_percent),
            selected == 0,
            env.audio.codec_present,
        ),
        row("Back"@, Seq::empty(), selected == 1, true),
    ]
}

pub open spec fn channel9_rows_of(s: ScreenStateView, env: RenderEnvView) -> Seq<RowView> {
    let c = s.config.channel9;
    let device = truncated_runtime_text(c.device_id);
    if config_logged_in(s.config) {
        seq![
            row("Status"@, "logged in"@, false, false),
            row("Workspace"@, truncated_runtime_text(c.workspace_id), false, false),
            row("Device"@, device, false, false),
            row("Token"@, "saved"@, false, false),
            row("Expires"@, epoch_text(c.token_expires_at), false, false),
            row("Clear"@, Seq::empty(), false, true),
            row("Back"@, Seq::empty(), false, true),
        ]
    } else {
        let ready = menu_login_block(s.config, wifi_connected(env)) is None;
        let has_code = s.login.active_code is Some;
        seq![
            row(
                "User Code"@,
                user_code_row(
                    s.config,
                    wifi_connected(env),
                    match s.login.active_code {
                        Some(code) => Some(code.user_code),
                        None => None,
                    },
                ),
                false,
                ready || has_code,
            ),
            row("Device"@, device, false, true),
            row("Poll"@, "check"@, false, has_code),
            row("Refresh"@, "new"@, false, ready),
            row("Back"@, Seq::empty(), false, true),
        ]
    }
}

pub open spec fn channel9_footer_of(s: ScreenStateView) -> Seq<char> {
    if s.login.message.len() != 0 {
        s.login.message
    } else if config_logged_in(s.config) {
        "SEL: Clear  ESC: Back"@
    } else {
        "SEL: Poll/Edit  ESC: Back"@
    }
}

pub open spec fn recorder_rows(recordings: Seq<RecordingView>, env: RenderEnvView) -> Seq<RowView> {
    seq![
        row(
            "Record"@,
            if env.voice_recorder_available {
                "ready"@
            } else {
                "no audio"@
            },
            false,
            env.voice_recorder_available,
        ),
    ] + Seq::new(
        recordings.len(),
        |i: int| row(recordings[i].name, recording_size_text(recordings[i].size_bytes), false, true),
    )
}

/// What `screen` shows for the screen data `s`, the hardware report `env`
/// and the recorder's last message.
pub open spec fn view_of(
    s: ScreenStateView,
    env: RenderEnvView,
    recorder_message: Seq<char>,
    screen: Screen,
) -> ViewV {
    match screen {
        Screen::Home => home_view(s, env),
        Screen::Config { selected } => config_view(selected),
        Screen::Wifi { selected } => settings(
            "WIFI"@,
            "Connection setup"@,
            window(wifi_rows(s, env), selected),
            "SEL: Open/Toggle  ESC: Back"@,
        ),
        Screen::WifiResult => wifi_result_view(s, env),
        Screen::WifiSaved { selected } => settings(
            "SAVED"@,
            "Stored networks"@,
            window(saved_rows(s.config.wifi.credentials, env), selected),
            "SEL: Join  BS: Del  ESC: Back"@,
        ),
        Screen::WifiScan { selected } => settings(
            "SCAN"@,
            "Nearby networks"@,
            window(scan_rows(s.scan_results), selected),
            "SEL: Join  ESC: Back"@,
        ),
        Screen::WifiPassword { network_index } => ViewV::Password {
            ssid: if network_index < s.scan_results.len() {
                s.scan_results[network_index as int].ssid
            } else {
                "unknown"@
            },
            password_len: byte_len(s.password_input) as usize,
            footer: "Enter: Save  ESC: Back"@,
        },
        Screen::Storage { selected } => settings(
            "STORAGE"@,
            "Persistence setup"@,
            storage_rows(s, env, selected),
            "SEL: Toggle/Open  ESC: Back"@,
        ),
        Screen::Device => settings(
            "DEVICE"@,
            "Board capability"@,
            device_rows(s, env),
            "Enter/ESC: Back"@,
        ),
        Screen::Time { selected } => settings(
            "TIME"@,
            "SNTP setup"@,
            window(time_rows(s, env), selected),
            "SEL: Toggle/Cycle  ESC: Back"@,
        ),
        Screen::Audio { selected } => settings(
            "AUDIO"@,
            "Speaker output"@,
            audio_rows(s, env, selected),
            "LEFT/RIGHT: Volume  ESC: Back"@,
        ),
        Screen::Channel9 { selected } => settings(
            "CHANNEL9"@,
            "Device login"@,
            window(channel9_rows_of(s, env), selected),
            channel9_footer_of(s),
        ),
        Screen::Channel9Input { field } => settings(
            "CHANNEL9"@,
            "Type value"@,
            seq![row("DEVICE"@, truncated_runtime_text(s.channel9_input), true, true)],
            "Enter: Save  ESC: Back"@,
        ),
        Screen::Recorder { selected } => settings(
            "REC"@,
            "Voice notes"@,
            window(recorder_rows(s.recordings, env), selected),
            "SEL: Rec/Play  BS: Del  ESC: Back"@,
        ),
        Screen::Recording => settings(
            "REC"@,
            "Recording"@,
            seq![
                row(
                    "Recording"@,
                    if env.voice_recording_active {
                        "writing"@
                    } else {
                        "idle"@
                    },
                    true,
                    true,
                ),
                row("Press to stop"@, Seq::empty(), false, true),
            ],
            "Enter/ESC: Stop"@,
        ),
        Screen::RecorderMessage => settings(
            "REC"@,
            "Done"@,
            seq![row(recorder_message, Seq::empty(), true, true)],
            "Enter/ESC: Back"@,
        ),
        Screen::Files => ViewV::FileList {
            path: s.config.storage.sdcard_mount_path,
            footer: "SEL/ESC: Back"@,
        },
    }
}

fn make_row(label: &str, value: &str, selected: bool, enabled: bool) -> (r: SettingItem)
    ensures
        r@ == row(label@, value@, selected, enabled),
        value@ == ""@ ==> r@ == row(label@, Seq::empty(), selected, enabled),
{
    proof {
        reveal_strlit("");
        assert(""@ =~= Seq::<char>::empty());
    }
    SettingItem { label: label.to_owned(), value: value.to_owned(), selected, enabled }
}

fn settings_view(title: &str, subtitle: &str, items: Vec<SettingItem>, footer: &str) -> (r: ScreenView)
    ensures
        r@ == settings(title@, subtitle@, rows_view(items@), footer@),
{
    ScreenView::Settings {
        title: title.to_owned(),
        subtitle: subtitle.to_owned(),
        items,
        footer: footer.to_owned(),
    }
}

/// The rows of `items` shown around `selected`: four from three above it,
/// with the selection marked.
pub fn visible_setting_items(items: &Vec<SettingItem>, selected: usize) -> (r: Vec<SettingItem>)
    ensures
        rows_view(r@) == window(rows_view(items@), selected),
{
    let start = if selected >= 3 {
        selected - 3
    } else {
        0
    };
    let mut out: Vec<SettingItem> = Vec::new();
    if start >= items.len() {
        assert(rows_view(out@) =~= window(rows_view(items@), selected));
        return out;
    }
    let count = if items.len() - start < 4 {
        items.len() - start
    } else {
        4
    };
    let mut i: usize = 0;
    while i < count
        invariant
            start == sat_sub(selected, 3),
            start < items.len(),
            count <= items.len() - start,
            count == (if items.len() - start < 4 {
                items.len() - start
            } else {
                4
            }),
            i <= count,
            rows_view(out@) =~= window(rows_view(items@), selected).take(i as int),
        decreases count - i,
    {
        let item = &items[start + i];
        let shown = SettingItem {
            label: item.label.clone(),
            value: item.value.clone(),
            selected: start + i == selected,
            enabled: item.enabled,
        };
        proof {
            assert(rows_view(items@)[start + i] == items@[start + i]@);
        }
        out.push(shown);
        proof {
            assert(window(rows_view(items@), selected).take(i + 1) =~= window(
                rows_view(items@),
                selected,
            ).take(i as int).push(shown@));
        }
        i += 1;
    }
    assert(window(rows_view(items@), selected).take(count as int) =~= window(
        rows_view(items@),
        selected,
    ));
    out
}

fn push_row(items: &mut Vec<SettingItem>, r: SettingItem)
    ensures
        rows_view(final(items)@) == rows_view(old(items)@).push(r@),
{
    items.push(r);
    assert(rows_view(items@) =~= rows_view(old(items)@).push(r@));
}

fn empty_rows() -> (r: Vec<SettingItem>)
    ensures
        rows_view(r@) == Seq::<RowView>::empty(),
{
    let r: Vec<SettingItem> = Vec::new();
    assert(rows_view(r@) =~= Seq::<RowView>::empty());
    r
}

fn is_wifi_connected(env: &RenderEnv) -> (r: bool)
    ensures
        r == wifi_connected(env@),
{
    match &env.wifi {
        Some(w) => w.status == WifiStatus::Connected,
        None => false,
    }
}

fn home_view_exec(state: &ScreenState, env: &RenderEnv) -> (r: ScreenView)
    ensures
        r@ == home_view(state@, env@),
{
    ScreenView::Home(HomeView {
        suggestion: "No pushes yet".to_owned(),
        detail: if is_wifi_connected(env) {
            "WiFi connected".to_owned()
        } else {
            "Open config to setup WiFi".to_owned()
        },
        storage_label: state.config.storage.sdcard_mount_path.clone(),
        wifi_enabled: state.config.wifi.connect_at_startup,
        sd_mounted: env.sdcard_mounted,
    })
}

fn config_label(i: usize) -> (r: &'static str)
    requires
        i < 8,
    ensures
        r@ == config_labels()[i as int],
{
    if i == 0 {
        "WiFi"
    } else if i == 1 {
        "Storage"
    } else if i == 2 {
        "Device"
    } else if i == 3 {
        "Files"
    } else if i == 4 {
        "Time"
    } else if i == 5 {
        "Audio"
    } else if i == 6 {
        "Channel9"
    } else {
        "Recorder"
    }
}

fn config_view_exec(selected: usize) -> (r: ScreenView)
    ensures
        r@ == config_view(selected),
{
    let mut items: Vec<MenuItem> = Vec::new();
    let mut i: usize = 0;
    while i < 8
        invariant
            i <= 8,
            menu_items_view(items@) =~= config_items(selected).take(i as int),
        decreases 8 - i,
    {
        let label = config_label(i);
        let item = MenuItem { label: label.to_owned(), selected: i == selected, enabled: true };
        assert(item@ == config_items(selected)[i as int]);
        let ghost before = menu_items_view(items@);
        items.push(item);
        assert(menu_items_view(items@) =~= before.push(item@));
        assert(config_items(selected).take(i + 1) =~= config_items(selected).take(i as int).push(
            config_items(selected)[i as int],
        ));
        i += 1;
    }
    assert(config_items(selected).take(8) =~= config_items(selected));
    ScreenView::Menu { items, footer: "SEL: Open  ESC: Back".to_owned() }
}

fn wifi_rows_exec(state: &ScreenState, env: &RenderEnv) -> (r: Vec<SettingItem>)
    ensures
        rows_view(r@) == wifi_rows(state@, env@),
{
    let saved = state.config.wifi.credentials.len();
    assert(state@.config.wifi.credentials.len() == saved);
    let status_text = match &env.wifi {
        Some(w) => if w.status == WifiStatus::Connected {
            "online"
        } else if w.status == WifiStatus::Failed {
            "failed"
        } else if saved == 0 {
            "0"
        } else {
            "saved"
        },
        None => if saved == 0 {
            "0"
        } else {
            "saved"
        },
    };
    let available = env.wifi.is_some();
    let mut items = empty_rows();
    push_row(
        &mut items,
        make_row("Auto Connect", bool_label(state.config.wifi.connect_at_startup), false, true),
    );
    push_row(&mut items, make_row("Status", status_text, false, true));
    push_row(
        &mut items,
        make_row("Saved Networks", saved_network_count_label(saved), false, saved > 0),
    );
    push_row(
        &mut items,
        make_row(
            "Scan Networks",
            if available {
                "scan"
            } else {
                "no wifi"
            },
            false,
            available,
        ),
    );
    push_row(&mut items, make_row("Back", "", false, true));
    assert(rows_view(items@) =~= wifi_rows(state@, env@));
    items
}

fn wifi_result_exec(state: &ScreenState, env: &RenderEnv) -> (r: ScreenView)
    ensures
        r@ == wifi_result_view(state@, env@),
{
    let status = match &env.wifi {
        Some(w) => wifi_status_label(w.status).to_owned(),
        None => "unavailable".to_owned(),
    };
    let info: Option<&WifiConnectionInfo> = match &env.wifi {
        Some(w) => match &w.connection {
            Some(c) => Some(c),
            None => None,
        },
        None => None,
    };
    let ssid = match info {
        Some(i) => i.ssid.clone(),
        None => {
            let last: Option<String> = match &env.wifi {
                Some(w) => match &w.last_ssid {
                    Some(v) => Some(v.clone()),
                    None => None,
                },
                None => None,
            };
            match last {
                Some(v) => v,
                None => if state.config.wifi.credentials.len() > 0 {
                    proof {
                        assert(state@.config.wifi.credentials[0]
                            == state.config.wifi.credentials@[0]@);
                    }
                    state.config.wifi.credentials[0].ssid.clone()
                } else {
                    "-".to_owned()
                },
            }
        },
    };
    let ip = match info {
        Some(i) => i.ip.clone(),
        None => "-".to_owned(),
    };
    let dns = match info {
        Some(i) => dns_label(i.dns_primary.as_str(), i.dns_secondary.as_str()),
        None => empty_dns_label(),
    };
    let message = match &env.wifi {
        Some(w) => match &w.last_error {
            Some(e) => e.clone(),
            None => String::new(),
        },
        None => String::new(),
    };
    ScreenView::WifiStatus { status, ssid, ip, dns, message, footer: "Enter/ESC: Back".to_owned() }
}

fn saved_rows_exec(state: &ScreenState, env: &RenderEnv) -> (r: Vec<SettingItem>)
    ensures
        rows_view(r@) == saved_rows(state@.config.wifi.credentials, env@),
{
    let creds = &state.config.wifi.credentials;
    let ghost cv = state@.config.wifi.credentials;
    let available = env.wifi.is_some();
    let active: Option<&String> = match &env.wifi {
        Some(w) => match &w.last_ssid {
            Some(v) => Some(v),
            None => None,
        },
        None => None,
    };
    let ghost active_view: Option<Seq<char>> = match env@.wifi {
        Some(w) => w.last_ssid,
        None => None,
    };
    assert(active_view == match active {
        Some(v) => Some(v@),
        None => None::<Seq<char>>,
    });
    let mut items = empty_rows();
    let mut i: usize = 0;
    while i < creds.len()
        invariant
            cv == crate::config::credentials_view(creds@),
            i <= creds.len(),
            available == (env@.wifi is Some),
            active_view == match active {
                Some(v) => Some(v@),
                None => None::<Seq<char>>,
            },
            active_view == match env@.wifi {
                Some(w) => w.last_ssid,
                None => None,
            },
            rows_view(items@) =~= saved_rows(cv, env@).take(i as int),
        decreases creds.len() - i,
    {
        assert(cv[i as int] == creds@[i as int]@);
        let is_active = match active {
            Some(v) => crate::text::str_eq(v.as_str(), creds[i].ssid.as_str()),
            None => false,
        };
        let value = if is_active {
            "active"
        } else {
            "saved"
        };
        let r = SettingItem {
            label: creds[i].ssid.clone(),
            value: value.to_owned(),
            selected: false,
            enabled: available,
        };
        push_row(&mut items, r);
        assert(saved_rows(cv, env@).take(i + 1) =~= saved_rows(cv, env@).take(i as int).push(r@));
        i += 1;
    }
    assert(saved_rows(cv, env@).take(creds.len() as int) =~= saved_rows(cv, env@));
    items
}

fn scan_rows_exec(networks: &Vec<crate::wifi::WifiNetwork>) -> (r: Vec<SettingItem>)
    ensures
        rows_view(r@) == scan_rows(crate::wifi::networks_view(networks@)),
{
    let ghost nv = crate::wifi::networks_view(networks@);
    let mut items = empty_rows();
    let mut i: usize = 0;
    while i < networks.len()
        invariant
            nv == crate::wifi::networks_view(networks@),
            i <= networks.len(),
            rows_view(items@) =~= scan_rows(nv).take(i as int),
        decreases networks.len() - i,
    {
        assert(nv[i as int] == networks@[i as int]@);
        let r = SettingItem {
            label: networks[i].ssid.clone(),
            value: signal_label(networks[i].signal_dbm).to_owned(),
            selected: false,
            enabled: true,
        };
        push_row(&mut items, r);
        assert(scan_rows(nv).take(i + 1) =~= scan_rows(nv).take(i as int).push(r@));
        i += 1;
    }
    assert(scan_rows(nv).take(networks.len() as int) =~= scan_rows(nv));
    items
}

fn storage_rows_exec(state: &ScreenState, env: &RenderEnv, selected: usize) -> (r: Vec<SettingItem>)
    ensures
        rows_view(r@) == storage_rows(state@, env@, selected),
{
    let mut items = empty_rows();
    push_row(
        &mut items,
        make_row("Prefer SD", bool_label(state.config.storage.prefer_sdcard), selected == 0, true),
    );
    push_row(
        &mut items,
        make_row("Mount Path", state.config.storage.sdcard_mount_path.as_str(), selected == 1, false),
    );
    push_row(
        &mut items,
        make_row(
            "Files",
            if env.sdcard_mounted {
                "open"
            } else {
                "no sd"
            },
            selected == 2,
            env.sdcard_mounted,
        ),
    );
    push_row(&mut items, make_row("Back", "", selected == 3, true));
    assert(rows_view(items@) =~= storage_rows(state@, env@, selected));
    items
}

fn device_rows_exec(state: &ScreenState, env: &RenderEnv) -> (r: Vec<SettingItem>)
    ensures
        rows_view(r@) == device_rows(state@, env@),
{
    let mut items = empty_rows();
    push_row(
        &mut items,
        make_row("Keyboard", bool_label(env.keyboard_available), false, env.keyboard_available),
    );
    let imu = imu_status_label(env.imu);
    push_row(&mut items, make_row("IMU", imu.as_str(), false, env.imu.present));
    let audio = audio_status_label(env.audio, state.config.audio.speaker_volume_percent);
    push_row(&mut items, make_row("Audio", audio.as_str(), false, env.audio.codec_present));
    let ble = match env.ble {
        Some(b) => ble_status_label(b),
        None => "missing",
    };
    push_row(&mut items, make_row("BLE", ble, false, env.ble.is_some()));
    push_row(&mut items, make_row("SD", bool_label(env.sdcard_mounted), false, env.sdcard_mounted));
    assert(rows_view(items@) =~= device_rows(state@, env@));
    items
}

fn time_rows_exec(state: &ScreenState, env: &RenderEnv) -> (r: Vec<SettingItem>)
    requires
        state.config.time.timezone_offset_minutes != i32::MIN,
    ensures
        rows_view(r@) == time_rows(state@, env@),
{
    let mut items = empty_rows();
    push_row(
        &mut items,
        make_row("Auto Sync", bool_label(state.config.time.sync_at_startup), false, true),
    );
    push_row(
        &mut items,
        make_row("SNTP Server", state.config.time.sntp_server.as_str(), false, true),
    );
    let offset = timezone_offset_label(state.config.time.timezone_offset_minutes);
    push_row(&mut items, make_row("UTC Offset", offset.as_str(), false, true));
    push_row(
        &mut items,
        make_row("Sync Now", time_status_label(env.time_status), false, is_wifi_connected(env)),
    );
    push_row(&mut items, make_row("Back", "", false, true));
    assert(rows_view(items@) =~= time_rows(state@, env@));
    items
}

fn audio_rows_exec(state: &ScreenState, env: &RenderEnv, selected: usize) -> (r: Vec<SettingItem>)
    ensures
        rows_view(r@) == audio_rows(state@, env@, selected),
{
    let mut items = empty_rows();
    let volume = percent_label(state.config.audio.speaker_volume_percent);
    push_row(
        &mut items,
        make_row("Volume", volume.as_str(), selected == 0, env.audio.codec_present),
    );
    push_row(&mut items, make_row("Back", "", selected == 1, true));
    assert(rows_view(items@) =~= audio_rows(state@, env@, selected));
    items
}

fn channel9_rows_exec(state: &ScreenState, env: &RenderEnv) -> (r: Vec<SettingItem>)
    ensures
        rows_view(r@) == channel9_rows_of(state@, env@),
{
    let device = truncate_runtime_label(state.config.channel9.device_id.as_str());
    let mut items = empty_rows();
    if channel9_logged_in(&state.config) {
        let workspace = truncate_runtime_label(state.config.channel9.workspace_id.as_str());
        let expires = channel9_epoch_label(state.config.channel9.token_expires_at);
        push_row(&mut items, make_row("Status", "logged in", false, false));
        push_row(&mut items, make_row("Workspace", workspace.as_str(), false, false));
        push_row(&mut items, make_row("Device", device.as_str(), false, false));
        push_row(&mut items, make_row("Token", "saved", false, false));
        push_row(&mut items, make_row("Expires", expires.as_str(), false, false));
        push_row(&mut items, make_row("Clear", "", false, true));
        push_row(&mut items, make_row("Back", "", false, true));
    } else {
        let connected = is_wifi_connected(env);
        let ready = channel9_login_ready(&state.config, connected);
        let has_code = state.login.active_code.is_some();
        let code_value = match &state.login.active_code {
            Some(code) => channel9_user_code_label(&state.config, connected, Some(&code.user_code)),
            None => channel9_user_code_label(&state.config, connected, None),
        };
        push_row(&mut items, make_row("User Code", code_value.as_str(), false, ready || has_code));
        push_row(&mut items, make_row("Device", device.as_str(), false, true));
        push_row(&mut items, make_row("Poll", "check", false, has_code));
        push_row(&mut items, make_row("Refresh", "new", false, ready));
        push_row(&mut items, make_row("Back", "", false, true));
    }
    assert(rows_view(items@) =~= channel9_rows_of(state@, env@));
    items
}

fn channel9_footer_exec(state: &ScreenState) -> (r: String)
    ensures
        r@ == channel9_footer_of(state@),
{
    if state.login.message.as_str().unicode_len() != 0 {
        state.login.message.clone()
    } else if channel9_logged_in(&state.config) {
        "SEL: Clear  ESC: Back".to_owned()
    } else {
        "SEL: Poll/Edit  ESC: Back".to_owned()
    }
}

fn recorder_rows_exec(state: &ScreenState, env: &RenderEnv) -> (r: Vec<SettingItem>)
    ensures
        rows_view(r@) == recorder_rows(state@.recordings, env@),
{
    let recordings = &state.recordings;
    let ghost rv = state@.recordings;
    let mut items = empty_rows();
    push_row(
        &mut items,
        make_row(
            "Record",
            if env.voice_recorder_available {
                "ready"
            } else {
                "no audio"
            },
            false,
            env.voice_recorder_available,
        ),
    );
    let ghost first = rows_view(items@);
    let mut i: usize = 0;
    while i < recordings.len()
        invariant
            rv == crate::menu::state::recordings_view(recordings@),
            i <= recordings.len(),
            first.len() == 1,
            first + Seq::new(
                rv.len(),
                |k: int| row(rv[k].name, recording_size_text(rv[k].size_bytes), false, true),
            ) == recorder_rows(rv, env@),
            rows_view(items@) =~= first + Seq::new(
                rv.len(),
                |k: int| row(rv[k].name, recording_size_text(rv[k].size_bytes), false, true),
            ).take(i as int),
        decreases recordings.len() - i,
    {
        assert(rv[i as int] == recordings@[i as int]@);
        let size = recording_size_label(recordings[i].size_bytes);
        let r = make_row(recordings[i].name.as_str(), size.as_str(), false, true);
        push_row(&mut items, r);
        assert(Seq::new(
            rv.len(),
            |k: int| row(rv[k].name, recording_size_text(rv[k].size_bytes), false, true),
        ).take(i + 1) =~= Seq::new(
            rv.len(),
            |k: int| row(rv[k].name, recording_size_text(rv[k].size_bytes), false, true),
        ).take(i as int).push(r@));
        i += 1;
    }
    assert(Seq::new(
        rv.len(),
        |k: int| row(rv[k].name, recording_size_text(rv[k].size_bytes), false, true),
    ).take(recordings.len() as int) =~= Seq::new(
        rv.len(),
        |k: int| row(rv[k].name, recording_size_text(rv[k].size_bytes), false, true),
    ));
    items
}

/// What `screen` shows: the screen data, what the hardware reports, and the
/// recorder's last message make the title, rows and footer.
pub fn screen_view(state: &ScreenState, env: &RenderEnv, recorder_message: &str, screen: Screen) -> (r:
    ScreenView)
    requires
        screen is Time ==> state.config.time.timezone_offset_minutes != i32::MIN,
    ensures
        r@ == view_of(state@, env@, recorder_message@, screen),
{
    match screen {
        Screen::Home => home_view_exec(state, env),
        Screen::Config { selected } => config_view_exec(selected),
        Screen::Wifi { selected } => {
            let rows = wifi_rows_exec(state, env);
            settings_view(
                "WIFI",
                "Connection setup",
                visible_setting_items(&rows, selected),
                "SEL: Open/Toggle  ESC: Back",
            )
        },
        Screen::WifiResult => wifi_result_exec(state, env),
        Screen::WifiSaved { selected } => {
            let rows = saved_rows_exec(state, env);
            settings_view(
                "SAVED",
                "Stored networks",
                visible_setting_items(&rows, selected),
                "SEL: Join  BS: Del  ESC: Back",
            )
        },
        Screen::WifiScan { selected } => {
            let rows = scan_rows_exec(&state.scan_results);
            settings_view(
                "SCAN",
                "Nearby networks",
                visible_setting_items(&rows, selected),
                "SEL: Join  ESC: Back",
            )
        },
        Screen::WifiPassword { network_index } => {
            let ssid = if network_index < state.scan_results.len() {
                proof {
                    assert(state@.scan_results[network_index as int]
                        == state.scan_results@[network_index as int]@);
                }
                state.scan_results[network_index].ssid.clone()
            } else {
                "unknown".to_owned()
            };
            ScreenView::Password {
                ssid,
                password_len: crate::text::string_byte_len(&state.password_input),
                footer: "Enter: Save  ESC: Back".to_owned(),
            }
        },
        Screen::Storage { selected } => settings_view(
            "STORAGE",
            "Persistence setup",
            storage_rows_exec(state, env, selected),
            "SEL: Toggle/Open  ESC: Back",
        ),
        Screen::Device => settings_view(
            "DEVICE",
            "Board capability",
            device_rows_exec(state, env),
            "Enter/ESC: Back",
        ),
        Screen::Time { selected } => {
            let rows = time_rows_exec(state, env);
            settings_view(
                "TIME",
                "SNTP setup",
                visible_setting_items(&rows, selected),
                "SEL: Toggle/Cycle  ESC: Back",
            )
        },
        Screen::Audio { selected } => settings_view(
            "AUDIO",
            "Speaker output",
            audio_rows_exec(state, env, selected),
            "LEFT/RIGHT: Volume  ESC: Back",
        ),
        Screen::Channel9 { selected } => {
            let rows = channel9_rows_exec(state, env);
            let footer = channel9_footer_exec(state);
            ScreenView::Settings {
                title: "CHANNEL9".to_owned(),
                subtitle: "Device login".to_owned(),
                items: visible_setting_items(&rows, selected),
                footer,
            }
        },
        Screen::Channel9Input { field } => {
            let value = truncate_runtime_label(state.channel9_input.as_str());
            let mut items = empty_rows();
            push_row(&mut items, make_row("DEVICE", value.as_str(), true, true));
            assert(rows_view(items@) =~= seq![
                row("DEVICE"@, truncated_runtime_text(state@.channel9_input), true, true),
            ]);
            settings_view("CHANNEL9", "Type value", items, "Enter: Save  ESC: Back")
        },
        Screen::Recorder { selected } => {
            let rows = recorder_rows_exec(state, env);
            settings_view(
                "REC",
                "Voice notes",
                visible_setting_items(&rows, selected),
                "SEL: Rec/Play  BS: Del  ESC: Back",
            )
        },
        Screen::Recording => {
            let mut items = empty_rows();
            push_row(
                &mut items,
                make_row(
                    "Recording",
                    if env.voice_recording_active {
                        "writing"
                    } else {
                        "idle"
                    },
                    true,
                    true,
                ),
            );
            push_row(&mut items, make_row("Press to stop", "", false, true));
            assert(rows_view(items@) =~= seq![
                row(
                    "Recording"@,
                    if env.voice_recording_active {
                        "writing"@
                    } else {
                        "idle"@
                    },
                    true,
                    true,
                ),
                row("Press to stop"@, Seq::empty(), false, true),
            ]);
            settings_view("REC", "Recording", items, "Enter/ESC: Stop")
        },
        Screen::RecorderMessage => {
            let mut items = empty_rows();
            push_row(&mut items, make_row(recorder_message, "", true, true));
            assert(rows_view(items@) =~= seq![row(recorder_message@, Seq::empty(), true, true)]);
            settings_view("REC", "Done", items, "Enter/ESC: Back")
        },
        Screen::Files => ScreenView::FileList {
            path: state.config.storage.sdcard_mount_path.clone(),
            footer: "SEL/ESC: Back".to_owned(),
        },
    }
}

/// The WiFi icon of the status bar.
#[derive(Debug, Clone, Copy, PartialEq, Eq, Structural)]
pub enum StatusWifi {
    Off,
    Started,
    Connected,
    Failed,
}

/// The BLE icon of the status bar.
#[derive(Debug, Clone, Copy, PartialEq, Eq, Structural)]
pub enum StatusBle {
    Off,
    Ready,
    Advertising,
    Failed,
}

/// The WiFi icon for the station's status: off when disabled, idle or
/// missing.
pub open spec fn wifi_icon(status: Option<WifiStatus>) -> StatusWifi {
    match status {
        Some(WifiStatus::Connected) => StatusWifi::Connected,
        Some(WifiStatus::Failed) => StatusWifi::Failed,
        Some(WifiStatus::Started) => StatusWifi::Started,
        _ => StatusWifi::Off,
    }
}

pub fn status_wifi(status: Option<WifiStatus>) -> (r: StatusWifi)
    ensures
        r == wifi_icon(status),
{
    match status {
        Some(WifiStatus::Connected) => StatusWifi::Connected,
        Some(WifiStatus::Failed) => StatusWifi::Failed,
        Some(WifiStatus::Started) => StatusWifi::Started,
        Some(WifiStatus::Disabled) | Some(WifiStatus::Idle) | None => StatusWifi::Off,
    }
}

/// The BLE icon for the advertiser's status: ready when idle, off when
/// missing.
pub open spec fn ble_icon(status: Option<BleStatus>) -> StatusBle {
    match status {
        Some(BleStatus::Advertising) => StatusBle::Advertising,
        Some(BleStatus::Ready) | Some(BleStatus::Idle) => StatusBle::Ready,
        Some(BleStatus::Failed) => StatusBle::Failed,
        None => StatusBle::Off,
    }
}

pub fn status_ble(status: Option<BleStatus>) -> (r: StatusBle)
    ensures
        r == ble_icon(status),
{
    match status {
        Some(BleStatus::Advertising) => StatusBle::Advertising,
        Some(BleStatus::Ready) | Some(BleStatus::Idle) => StatusBle::Ready,
        Some(BleStatus::Failed) => StatusBle::Failed,
        None => StatusBle::Off,
    }
}

/// Does a clock tick repaint the screen: not while recording, and only
/// when the shown time changed.
pub fn clock_tick_needs_redraw(screen: Screen, current_clock: &str, rendered_clock: &str) -> (r: bool)
    ensures
        r == (screen != Screen::Recording && current_clock@ != rendered_clock@),
{
    screen != Screen::Recording && !crate::text::str_eq(current_clock, rendered_clock)
}

} // verus!
