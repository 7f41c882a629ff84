//! The persisted application configuration and its defaults.

use vstd::prelude::*;

use crate::runtime::types::{clone_opt_string, clone_strings, opt_string_view, strings_view};

verus! {

/// The board this firmware runs on.
#[derive(Debug, Clone, Copy, PartialEq, Eq, Structural)]
pub enum DeviceId {
    CardputerAdv,
}

/// SPI pins of the microSD slot.
#[derive(Debug, Clone, Copy, PartialEq, Eq, Structural)]
pub struct SdCardPins {
    pub cs: i32,
    pub sck: i32,
    pub miso: i32,
    pub mosi: i32,
}

impl SdCardPins {
    /// The microSD wiring of the Cardputer-Adv.
    pub fn cardputer_adv() -> (r: Self)
        ensures
            r == (SdCardPins { cs: 12, sck: 40, miso: 39, mosi: 14 }),
    {
        SdCardPins { cs: 12, sck: 40, miso: 39, mosi: 14 }
    }
}

#[derive(Debug, Clone, PartialEq, Eq)]
pub struct StorageConfig {
    pub prefer_sdcard: bool,
    pub sdcard_mount_path: String,
    pub sdcard_pins: SdCardPins,
}

#[derive(Debug, Clone, PartialEq, Eq)]
pub struct WifiCredential {
    pub ssid: String,
    pub password: String,
}

#[derive(Debug, Clone, PartialEq, Eq)]
pub struct WifiConfig {
    pub connect_at_startup: bool,
    pub credentials: Vec<WifiCredential>,
}

#[derive(Debug, Clone, PartialEq, Eq)]
pub struct TimeConfig {
    pub sync_at_startup: bool,
    pub sntp_server: String,
    pub timezone_offset_minutes: i32,
}

#[derive(Debug, Clone, Copy, PartialEq, Eq, Structural)]
pub struct AudioConfig {
    pub speaker_volume_percent: u8,
}

#[derive(Debug, Clone, PartialEq, Eq)]
pub struct Channel9Config {
    pub api_base_url: String,
    pub workspace_id: String,
    pub device_id: String,
    pub description: String,
    pub interfaces: Vec<String>,
    pub access_token: Option<String>,
    pub token_expires_at: Option<i64>,
}

#[derive(Debug, Clone, PartialEq, Eq)]
pub struct AppConfig {
    pub device: DeviceId,
    pub storage: StorageConfig,
    pub wifi: WifiConfig,
    pub time: TimeConfig,
    pub audio: AudioConfig,
    pub channel9: Channel9Config,
}

pub struct CredentialView {
    pub ssid: Seq<char>,
    pub password: Seq<char>,
}

impl View for WifiCredential {
    type V = CredentialView;

    open spec fn view(&self) -> CredentialView {
        CredentialView { ssid: self.ssid@, password: self.password@ }
    }
}

pub open spec fn credentials_view(v: Seq<WifiCredential>) -> Seq<CredentialView> {
    v.map_values(|c: WifiCredential| c@)
}

pub struct StorageView {
    pub prefer_sdcard: bool,
    pub sdcard_mount_path: Seq<char>,
    pub sdcard_pins: SdCardPins,
}

pub struct WifiConfigView {
    pub connect_at_startup: bool,
    pub credentials: Seq<CredentialView>,
}

pub struct TimeView {
    pub sync_at_startup: bool,
    pub sntp_server: Seq<char>,
    pub timezone_offset_minutes: i32,
}

pub struct Channel9ConfigView {
    pub api_base_url: Seq<char>,
    pub workspace_id: Seq<char>,
    pub device_id: Seq<char>,
    pub description: Seq<char>,
    pub interfaces: Seq<Seq<char>>,
    pub access_token: Option<Seq<char>>,
    pub token_expires_at: Option<i64>,
}

pub struct AppConfigView {
    pub device: DeviceId,
    pub storage: StorageView,
    pub wifi: WifiConfigView,
    pub time: TimeView,
    pub audio: AudioConfig,
    pub channel9: Channel9ConfigView,
}

impl View for StorageConfig {
    type V = StorageView;

    open spec fn view(&self) -> StorageView {
        StorageView {
            prefer_sdcard: self.prefer_sdcard,
            sdcard_mount_path: self.sdcard_mount_path@,
            sdcard_pins: self.sdcard_pins,
        }
    }
}

impl View for WifiConfig {
    type V = WifiConfigView;

    open spec fn view(&self) -> WifiConfigView {
        WifiConfigView {
            connect_at_startup: self.connect_at_startup,
            credentials: credentials_view(self.credentials@),
        }
    }
}

impl View for TimeConfig {
    type V = TimeView;

    open spec fn view(&self) -> TimeView {
        TimeView {
            sync_at_startup: self.sync_at_startup,
            sntp_server: self.sntp_server@,
            timezone_offset_minutes: self.timezone_offset_minutes,
        }
    }
}

impl View for Channel9Config {
    type V = Channel9ConfigView;

    open spec fn view(&self) -> Channel9ConfigView {
        Channel9ConfigView {
            api_base_url: self.api_base_url@,
            workspace_id: self.workspace_id@,
            device_id: self.device_id@,
            description: self.description@,
            interfaces: strings_view(self.interfaces@),
            access_token: opt_string_view(&self.access_token),
            token_expires_at: self.token_expires_at,
        }
    }
}

impl View for AppConfig {
    type V = AppConfigView;

    open spec fn view(&self) -> AppConfigView {
        AppConfigView {
            device: self.device,
            storage: self.storage@,
            wifi: self.wifi@,
            time: self.time@,
            audio: self.audio,
            channel9: self.channel9@,
        }
    }
}

/// The Channel9 API used when the configuration names none.
pub fn default_channel9_api_base_url() -> (r: String)
    ensures
        r@ == "https://app.linkerdog.work"@,
{
    "https://app.linkerdog.work".to_owned()
}

/// The device description used when the configuration names none.
pub fn default_channel9_device_description() -> (r: String)
    ensures
        r@ == "Cardputer-Adv Channel9 device"@,
{
    "Cardputer-Adv Channel9 device".to_owned()
}

pub open spec fn default_audio() -> AudioConfig {
    AudioConfig { speaker_volume_percent: 75 }
}

pub open spec fn default_time_view() -> TimeView {
    TimeView {
        sync_at_startup: true,
        sntp_server: "ntp.tuna.tsinghua.edu.cn"@,
        timezone_offset_minutes: 480,
    }
}

pub open spec fn default_channel9_view() -> Channel9ConfigView {
    Channel9ConfigView {
        api_base_url: "https://app.linkerdog.work"@,
        workspace_id: Seq::empty(),
        device_id: "cardputer-adv"@,
        description: "Cardputer-Adv Channel9 device"@,
        interfaces: seq!["display"@, "speaker"@],
        access_token: None,
        token_expires_at: None,
    }
}

pub open spec fn default_app_config_view() -> AppConfigView {
    AppConfigView {
        device: DeviceId::CardputerAdv,
        storage: StorageView {
            prefer_sdcard: true,
            sdcard_mount_path: "/sdcard"@,
            sdcard_pins: SdCardPins { cs: 12, sck: 40, miso: 39, mosi: 14 },
        },
        wifi: WifiConfigView { connect_at_startup: false, credentials: Seq::empty() },
        time: default_time_view(),
        audio: default_audio(),
        channel9: default_channel9_view(),
    }
}

impl Default for AudioConfig {
    fn default() -> (r: Self)
        ensures
            r == default_audio(),
    {
        AudioConfig { speaker_volume_percent: 75 }
    }
}

impl Default for TimeConfig {
    fn default() -> (r: Self)
        ensures
            r@ == default_time_view(),
    {
        TimeConfig {
            sync_at_startup: true,
            sntp_server: "ntp.tuna.tsinghua.edu.cn".to_owned(),
            timezone_offset_minutes: 8 * 60,
        }
    }
}

impl Default for Channel9Config {
    fn default() -> (r: Self)
        ensures
            r@ == default_channel9_view(),
    {
        let mut interfaces: Vec<String> = Vec::new();
        interfaces.push("display".to_owned());
        interfaces.push("speaker".to_owned());
        let r = Channel9Config {
            api_base_url: default_channel9_api_base_url(),
            workspace_id: String::new(),
            device_id: "cardputer-adv".to_owned(),
            description: default_channel9_device_description(),
            interfaces,
            access_token: None,
            token_expires_at: None,
        };
        assert(strings_view(r.interfaces@) =~= seq!["display"@, "speaker"@]);
        r
    }
}

impl Default for AppConfig {
    fn default() -> (r: Self)
        ensures
            r@ == default_app_config_view(),
    {
        let r = AppConfig {
            device: DeviceId::CardputerAdv,
            storage: StorageConfig {
                prefer_sdcard: true,
                sdcard_mount_path: "/sdcard".to_owned(),
                sdcard_pins: SdCardPins::cardputer_adv(),
            },
            wifi: WifiConfig { connect_at_startup: false, credentials: Vec::new() },
            time: TimeConfig::default(),
            audio: AudioConfig::default(),
            channel9: Channel9Config::default(),
        };
        assert(credentials_view(r.wifi.credentials@) =~= Seq::<CredentialView>::empty());
        r
    }
}

/// A copy of a credential.
pub fn clone_credential(c: &WifiCredential) -> (r: WifiCredential)
    ensures
        r@ == c@,
{
    WifiCredential { ssid: c.ssid.clone(), password: c.password.clone() }
}

/// A copy of the Channel9 settings.
pub fn clone_channel9_config(c: &Channel9Config) -> (r: Channel9Config)
    ensures
        r@ == c@,
{
    Channel9Config {
        api_base_url: c.api_base_url.clone(),
        workspace_id: c.workspace_id.clone(),
        device_id: c.device_id.clone(),
        description: c.description.clone(),
        interfaces: clone_strings(&c.interfaces),
        access_token: clone_opt_string(&c.access_token),
        token_expires_at: c.token_expires_at,
    }
}

} // verus!
