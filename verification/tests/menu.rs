use channel9::board::InputEvent;
use channel9::config::{AppConfig, WifiCredential};
use channel9::menu::labels::{
    audio_status_label, channel9_epoch_label, dns_label, file_row_label, format_size,
    imu_status_label, next_sntp_server, next_timezone_offset, percent_label, recording_size_label,
    scroll_label, signal_label, timezone_offset_label, truncate_name, truncate_runtime_label,
};
use channel9::menu::recorder::{recorder_failure_message, recorder_stop_message, stops_recording};
use channel9::menu::screen::{
    after_device_code_created, after_recordings_loaded, after_token_polled, after_wifi_connect,
    after_wifi_scan, reduce_screen, upsert_wifi_credential,
};
use channel9::menu::state::{
    Channel9InputField, MenuLoginState, RecordingItem, Screen, ScreenEffect, ScreenEnv,
    ScreenNext, ScreenState, ScreenTask,
};
use channel9::menu::view::{screen_view, RenderEnv, ScreenView, SettingItem, WifiSnapshot};
use channel9::board::{AudioStatus, ImuStatus};
use channel9::menu::labels::TimeSyncStatus;
use channel9::runtime::types::{DeviceCode, DeviceToken, PollToken};
use channel9::wifi::{WifiNetwork, WifiStatus};

fn state() -> ScreenState {
    ScreenState {
        config: AppConfig::default(),
        scan_results: Vec::new(),
        recordings: Vec::new(),
        password_input: String::new(),
        channel9_input: String::new(),
        login: MenuLoginState::default(),
    }
}

fn env(connected: bool) -> ScreenEnv {
    ScreenEnv { wifi_available: true, wifi_connected: connected, sdcard_mounted: true, random: 0xdeadbeef }
}

fn shown(step: &channel9::menu::state::ScreenStep) -> Screen {
    match &step.next {
        ScreenNext::Show(screen) => *screen,
        ScreenNext::Await(task) => panic!("unexpected task {task:?}"),
    }
}

fn code() -> DeviceCode {
    DeviceCode {
        device_code: "dc-1".to_owned(),
        user_code: "abcd1234".to_owned(),
        verification_uri: "https://example.test".to_owned(),
        verification_uri_complete: "https://example.test?c=1".to_owned(),
        expires_at: 10,
        activation_expires_at: 20,
        interval_seconds: 5,
    }
}

fn render_env() -> RenderEnv {
    RenderEnv {
        wifi: Some(WifiSnapshot {
            status: WifiStatus::Connected,
            last_ssid: Some("home".to_owned()),
            last_error: None,
            connection: None,
        }),
        ble: None,
        sdcard_mounted: true,
        keyboard_available: true,
        imu: ImuStatus::missing(),
        audio: AudioStatus::missing(),
        voice_recorder_available: true,
        voice_recording_active: false,
        time_status: TimeSyncStatus::Synced,
    }
}

#[test]
fn home_select_opens_config_and_back_returns() {
    let mut s = state();
    let step = reduce_screen(&mut s, env(true), Screen::Home, InputEvent::Select);
    assert_eq!(shown(&step), Screen::Config { selected: 0 });
    let step = reduce_screen(&mut s, env(true), Screen::Config { selected: 4 }, InputEvent::Back);
    assert_eq!(shown(&step), Screen::Home);
}

#[test]
fn config_menu_wraps_around() {
    let mut s = state();
    let up = reduce_screen(&mut s, env(true), Screen::Config { selected: 0 }, InputEvent::Up);
    assert_eq!(shown(&up), Screen::Config { selected: 7 });
    let down = reduce_screen(&mut s, env(true), Screen::Config { selected: 7 }, InputEvent::Down);
    assert_eq!(shown(&down), Screen::Config { selected: 0 });
}

#[test]
fn back_returns_to_the_entry_that_opened_the_screen() {
    let mut s = state();
    let storage = reduce_screen(&mut s, env(true), Screen::Config { selected: 1 }, InputEvent::Select);
    assert_eq!(shown(&storage), Screen::Storage { selected: 0 });
    let back = reduce_screen(&mut s, env(true), Screen::Storage { selected: 2 }, InputEvent::Back);
    assert_eq!(shown(&back), Screen::Config { selected: 1 });
    let time_back = reduce_screen(&mut s, env(true), Screen::Time { selected: 0 }, InputEvent::Back);
    assert_eq!(shown(&time_back), Screen::Config { selected: 4 });
}

#[test]
fn wifi_toggle_auto_connect_saves() {
    let mut s = state();
    let step = reduce_screen(&mut s, env(true), Screen::Wifi { selected: 0 }, InputEvent::Select);
    assert!(s.config.wifi.connect_at_startup);
    assert_eq!(step.effects, vec![ScreenEffect::SaveConfig]);
    assert_eq!(shown(&step), Screen::Wifi { selected: 0 });
}

#[test]
fn wifi_scan_waits_for_networks_then_shows_them() {
    let mut s = state();
    let step = reduce_screen(&mut s, env(false), Screen::Wifi { selected: 3 }, InputEvent::Select);
    assert_eq!(step.next, ScreenNext::Await(ScreenTask::ScanWifi { selected: 3 }));
    let networks = vec![WifiNetwork { ssid: "lab".to_owned(), channel: 6, signal_dbm: -60, auth_method: None }];
    let next = after_wifi_scan(&mut s, 3, Some(networks));
    assert_eq!(next, Screen::WifiScan { selected: 0 });
    assert_eq!(s.scan_results.len(), 1);
    let failed = after_wifi_scan(&mut s, 3, None);
    assert_eq!(failed, Screen::Wifi { selected: 3 });
}

#[test]
fn password_entry_saves_credential_and_joins() {
    let mut s = state();
    s.scan_results = vec![WifiNetwork { ssid: "lab".to_owned(), channel: 6, signal_dbm: -60, auth_method: None }];
    let screen = Screen::WifiPassword { network_index: 0 };
    reduce_screen(&mut s, env(false), screen, InputEvent::Char('p'));
    reduce_screen(&mut s, env(false), screen, InputEvent::Char('w'));
    reduce_screen(&mut s, env(false), screen, InputEvent::Char('x'));
    reduce_screen(&mut s, env(false), screen, InputEvent::Backspace);
    assert_eq!(s.password_input, "pw");
    let step = reduce_screen(&mut s, env(false), screen, InputEvent::Select);
    let credential = WifiCredential { ssid: "lab".to_owned(), password: "pw".to_owned() };
    assert_eq!(step.effects, vec![ScreenEffect::SaveConfig]);
    assert_eq!(step.next, ScreenNext::Await(ScreenTask::ConnectWifi { credential: credential.clone() }));
    assert_eq!(s.config.wifi.credentials, vec![credential]);
    assert!(s.config.wifi.connect_at_startup);
    assert_eq!(s.password_input, "");
    let after = after_wifi_connect(true);
    assert_eq!(after.effects, vec![ScreenEffect::SyncTimeNow]);
    assert_eq!(after.next, ScreenNext::Show(Screen::WifiResult));
    assert!(after_wifi_connect(false).effects.is_empty());
}

#[test]
fn password_is_limited_to_64_bytes() {
    let mut s = state();
    s.password_input = "a".repeat(64);
    reduce_screen(&mut s, env(true), Screen::WifiPassword { network_index: 0 }, InputEvent::Char('b'));
    assert_eq!(s.password_input.len(), 64);
}

#[test]
fn deleting_the_last_saved_network_turns_off_auto_connect() {
    let mut s = state();
    s.config.wifi.connect_at_startup = true;
    s.config.wifi.credentials = vec![WifiCredential { ssid: "a".to_owned(), password: "1".to_owned() }];
    let step = reduce_screen(&mut s, env(true), Screen::WifiSaved { selected: 0 }, InputEvent::Backspace);
    assert!(s.config.wifi.credentials.is_empty());
    assert!(!s.config.wifi.connect_at_startup);
    assert_eq!(step.effects, vec![ScreenEffect::SaveConfig]);
    assert_eq!(shown(&step), Screen::WifiSaved { selected: 0 });
}

#[test]
fn upsert_replaces_existing_network() {
    let mut config = AppConfig::default();
    upsert_wifi_credential(&mut config, WifiCredential { ssid: "a".to_owned(), password: "1".to_owned() });
    upsert_wifi_credential(&mut config, WifiCredential { ssid: "b".to_owned(), password: "2".to_owned() });
    upsert_wifi_credential(&mut config, WifiCredential { ssid: "a".to_owned(), password: "3".to_owned() });
    assert_eq!(config.wifi.credentials.len(), 2);
    assert_eq!(config.wifi.credentials[0].password, "3");
    assert_eq!(config.wifi.credentials[1].ssid, "b");
}

#[test]
fn time_menu_cycles_server_and_offset() {
    let mut s = state();
    let step = reduce_screen(&mut s, env(true), Screen::Time { selected: 1 }, InputEvent::Select);
    assert_eq!(s.config.time.sntp_server, "time.pool.aliyun.com");
    assert_eq!(step.effects, vec![ScreenEffect::SaveConfig, ScreenEffect::SyncTimeNow]);
    reduce_screen(&mut s, env(true), Screen::Time { selected: 2 }, InputEvent::Select);
    assert_eq!(s.config.time.timezone_offset_minutes, 0);
    assert_eq!(next_sntp_server("3.pool.ntp.org"), "ntp.tuna.tsinghua.edu.cn");
    assert_eq!(next_sntp_server("unknown"), "ntp.tuna.tsinghua.edu.cn");
    assert_eq!(next_timezone_offset(540), 480);
    assert_eq!(next_timezone_offset(7), 480);
}

#[test]
fn audio_volume_steps_and_saturates() {
    let mut s = state();
    s.config.audio.speaker_volume_percent = 98;
    let step = reduce_screen(&mut s, env(true), Screen::Audio { selected: 0 }, InputEvent::Right);
    assert_eq!(s.config.audio.speaker_volume_percent, 100);
    assert_eq!(step.effects, vec![ScreenEffect::ApplySpeakerVolume]);
    let same = reduce_screen(&mut s, env(true), Screen::Audio { selected: 0 }, InputEvent::Select);
    assert!(same.effects.is_empty());
    s.config.audio.speaker_volume_percent = 3;
    reduce_screen(&mut s, env(true), Screen::Audio { selected: 0 }, InputEvent::Left);
    assert_eq!(s.config.audio.speaker_volume_percent, 0);
    let back = reduce_screen(&mut s, env(true), Screen::Audio { selected: 0 }, InputEvent::Back);
    assert_eq!(back.effects, vec![ScreenEffect::SaveConfig]);
    assert_eq!(shown(&back), Screen::Config { selected: 5 });
}

#[test]
fn opening_channel9_names_the_device_without_a_request() {
    let mut s = state();
    let step = reduce_screen(&mut s, env(true), Screen::Config { selected: 6 }, InputEvent::Select);
    assert_eq!(s.config.channel9.device_id, "cardputer_deadbeef");
    assert_eq!(step.effects, vec![ScreenEffect::SaveConfig]);
    assert_eq!(step.next, ScreenNext::Show(Screen::Channel9 { selected: 0 }));
    assert_eq!(s.login.active_code, None);
    let again = reduce_screen(&mut s, env(true), Screen::Config { selected: 6 }, InputEvent::Select);
    assert!(again.effects.is_empty());
    assert_eq!(s.config.channel9.device_id, "cardputer_deadbeef");
}

#[test]
fn refresh_on_the_channel9_screen_requests_a_code() {
    let mut s = state();
    reduce_screen(&mut s, env(true), Screen::Config { selected: 6 }, InputEvent::Select);
    let step = reduce_screen(&mut s, env(true), Screen::Channel9 { selected: 3 }, InputEvent::Select);
    match step.next {
        ScreenNext::Await(ScreenTask::CreateDeviceCode { device_id, description, interfaces, return_to }) => {
            assert_eq!(device_id, "cardputer_deadbeef");
            assert_eq!(description, "Cardputer-Adv Channel9 device");
            assert_eq!(interfaces, vec!["display".to_owned(), "speaker".to_owned()]);
            assert_eq!(return_to, Screen::Channel9 { selected: 3 });
        }
        other => panic!("unexpected {other:?}"),
    }
}

#[test]
fn refresh_offline_reports_the_reason() {
    let mut s = state();
    reduce_screen(&mut s, env(false), Screen::Config { selected: 6 }, InputEvent::Select);
    let step = reduce_screen(&mut s, env(false), Screen::Channel9 { selected: 3 }, InputEvent::Select);
    assert_eq!(shown(&step), Screen::Channel9 { selected: 3 });
    assert_eq!(s.login.message, "WiFi offline");
}

#[test]
fn device_code_answer_is_shown_and_token_dropped() {
    let mut s = state();
    s.config.channel9.access_token = Some("old".to_owned());
    let step = after_device_code_created(&mut s, Ok(code()), Screen::Channel9 { selected: 0 });
    assert_eq!(s.login.message, "Code ABCD-1234");
    assert!(s.login.active_code.is_some());
    assert_eq!(s.config.channel9.access_token, None);
    assert_eq!(step.effects, vec![ScreenEffect::SaveConfig]);
    let failed = after_device_code_created(&mut s, Err("network down".to_owned()), Screen::Channel9 { selected: 3 });
    assert_eq!(s.login.message, "Create failed: network down");
    assert_eq!(shown(&failed), Screen::Channel9 { selected: 3 });
}

#[test]
fn token_poll_answers() {
    let mut s = state();
    s.login.active_code = Some(code());
    let step = reduce_screen(&mut s, env(true), Screen::Channel9 { selected: 0 }, InputEvent::Select);
    assert_eq!(
        step.next,
        ScreenNext::Await(ScreenTask::PollDeviceToken {
            device_code: "dc-1".to_owned(),
            user_code: "abcd1234".to_owned(),
            return_to: Screen::Channel9 { selected: 0 },
        })
    );
    after_token_polled(&mut s, "abcd1234", Ok(PollToken::Pending), Screen::Channel9 { selected: 0 });
    assert_eq!(s.login.message, "Pending ABCD-1234");
    let token = DeviceToken {
        access_token: "tok".to_owned(),
        token_type: "Bearer".to_owned(),
        expires_at: 99,
        workspace_id: "ws".to_owned(),
        device_id: "dev".to_owned(),
    };
    let saved = after_token_polled(&mut s, "abcd1234", Ok(PollToken::Approved(token)), Screen::Channel9 { selected: 0 });
    assert_eq!(s.config.channel9.access_token.as_deref(), Some("tok"));
    assert_eq!(s.config.channel9.token_expires_at, Some(99));
    assert_eq!(s.config.channel9.device_id, "dev");
    assert_eq!(s.login.message, "Login saved");
    assert!(s.login.active_code.is_none());
    assert_eq!(saved.effects, vec![ScreenEffect::SaveConfig]);
    after_token_polled(&mut s, "abcd1234", Err(String::new()), Screen::Channel9 { selected: 0 });
    assert_eq!(s.login.message, "Poll failed");
}

#[test]
fn poll_without_code_asks_for_one() {
    let mut s = state();
    let step = reduce_screen(&mut s, env(true), Screen::Channel9 { selected: 2 }, InputEvent::Select);
    assert_eq!(shown(&step), Screen::Channel9 { selected: 2 });
    assert_eq!(s.login.message, "Create code first");
}

#[test]
fn clearing_the_token_logs_out() {
    let mut s = state();
    s.config.channel9.access_token = Some("tok".to_owned());
    s.config.channel9.token_expires_at = Some(5);
    let step = reduce_screen(&mut s, env(true), Screen::Channel9 { selected: 5 }, InputEvent::Select);
    assert_eq!(s.config.channel9.access_token, None);
    assert_eq!(s.config.channel9.token_expires_at, None);
    assert_eq!(s.login.message, "Token cleared");
    assert_eq!(shown(&step), Screen::Channel9 { selected: 0 });
}

#[test]
fn editing_the_device_id_trims_and_saves() {
    let mut s = state();
    let step = reduce_screen(&mut s, env(true), Screen::Channel9 { selected: 1 }, InputEvent::Select);
    let field = Screen::Channel9Input { field: Channel9InputField::Device };
    assert_eq!(shown(&step), field);
    assert_eq!(s.channel9_input, "cardputer-adv");
    for _ in 0..13 {
        reduce_screen(&mut s, env(true), field, InputEvent::Backspace);
    }
    for c in " desk ".chars() {
        reduce_screen(&mut s, env(true), field, InputEvent::Char(c));
    }
    let saved = reduce_screen(&mut s, env(true), field, InputEvent::Select);
    assert_eq!(s.config.channel9.device_id, "desk");
    assert_eq!(s.login.message, "Press Refresh");
    assert_eq!(saved.effects, vec![ScreenEffect::SaveConfig]);
}

#[test]
fn recorder_delete_and_play() {
    let mut s = state();
    s.recordings = vec![RecordingItem { name: "rec_002.wav".to_owned(), path: "/sdcard/channel9/recordings/rec_002.wav".to_owned(), size_bytes: 2048 }];
    let play = reduce_screen(&mut s, env(true), Screen::Recorder { selected: 1 }, InputEvent::Select);
    assert_eq!(play.effects, vec![ScreenEffect::PlayVoiceNote("/sdcard/channel9/recordings/rec_002.wav".to_owned())]);
    let record = reduce_screen(&mut s, env(true), Screen::Recorder { selected: 0 }, InputEvent::Select);
    assert_eq!(shown(&record), Screen::Recording);
    let delete = reduce_screen(&mut s, env(true), Screen::Recorder { selected: 1 }, InputEvent::Backspace);
    assert_eq!(delete.effects, vec![ScreenEffect::DeleteVoiceNote("/sdcard/channel9/recordings/rec_002.wav".to_owned())]);
    assert_eq!(delete.next, ScreenNext::Await(ScreenTask::ReloadRecordings { selected: 1 }));
    let next = after_recordings_loaded(&mut s, 1, Vec::new());
    assert_eq!(next, Screen::Recorder { selected: 0 });
}

#[test]
fn recording_screen_ignores_keys() {
    let mut s = state();
    let step = reduce_screen(&mut s, env(true), Screen::Recording, InputEvent::Back);
    assert_eq!(shown(&step), Screen::Recording);
}

#[test]
fn labels_render_exact_texts() {
    assert_eq!(signal_label(-50), "strong");
    assert_eq!(signal_label(-60), "good");
    assert_eq!(signal_label(-80), "weak");
    assert_eq!(signal_label(-90), "poor");
    assert_eq!(recording_size_label(1000), "1000B");
    assert_eq!(recording_size_label(4096), "4KB");
    assert_eq!(timezone_offset_label(-480), "UTC-08");
    assert_eq!(timezone_offset_label(540), "UTC+09");
    assert_eq!(percent_label(150), "100%");
    let audio = AudioStatus { codec_present: true, codec_name: "ES8311", codec_address: Some(0x18), speaker_ready: true, microphone_ready: false };
    assert_eq!(audio_status_label(audio, 75), "ES8311 SY MN 75%");
    assert_eq!(recorder_stop_message(&Ok(Some("/a/b/rec_001.wav".to_owned()))), "Saved rec_001.wav");
    assert_eq!(recorder_stop_message(&Ok(None)), "No active recording");
    assert_eq!(recorder_failure_message("busy"), "Record failed: busy");
}

#[test]
fn wifi_screen_view_windows_rows() {
    let s = state();
    let view = screen_view(&s, &render_env(), "", Screen::Wifi { selected: 4 });
    match view {
        ScreenView::Settings { title, items, .. } => {
            assert_eq!(title, "WIFI");
            assert_eq!(items.len(), 4);
            assert_eq!(items[0].label, "Status");
            assert_eq!(items[0].value, "online");
            assert_eq!(
                items[3],
                SettingItem { label: "Back".to_owned(), value: String::new(), selected: true, enabled: true }
            );
        }
        other => panic!("unexpected {other:?}"),
    }
}

#[test]
fn channel9_screen_view_shows_login_rows() {
    let mut s = state();
    s.login.message = String::new();
    let view = screen_view(&s, &render_env(), "", Screen::Channel9 { selected: 0 });
    match view {
        ScreenView::Settings { items, footer, .. } => {
            assert_eq!(items.len(), 4);
            assert_eq!(items[0].label, "User Code");
            assert_eq!(items[0].value, "Enter Create");
            assert!(items[0].selected);
            assert_eq!(footer, "SEL: Poll/Edit  ESC: Back");
        }
        other => panic!("unexpected {other:?}"),
    }
}

#[test]
fn home_view_reports_wifi() {
    let s = state();
    match screen_view(&s, &render_env(), "", Screen::Home) {
        ScreenView::Home(home) => {
            assert_eq!(home.detail, "WiFi connected");
            assert_eq!(home.storage_label, "/sdcard");
            assert_eq!(home.suggestion, "No pushes yet");
        }
        other => panic!("unexpected {other:?}"),
    }
}

#[test]
fn config_menu_lists_eight_items() {
    let s = state();
    match screen_view(&s, &render_env(), "", Screen::Config { selected: 2 }) {
        ScreenView::Menu { items, footer } => {
            let labels: Vec<&str> = items.iter().map(|i| i.label.as_str()).collect();
            assert_eq!(
                labels,
                vec!["WiFi", "Storage", "Device", "Files", "Time", "Audio", "Channel9", "Recorder"]
            );
            assert!(items[2].selected);
            assert_eq!(items.iter().filter(|i| i.selected).count(), 1);
            assert!(items.iter().all(|i| i.enabled));
            assert_eq!(footer, "SEL: Open  ESC: Back");
        }
        other => panic!("unexpected {other:?}"),
    }
}

#[test]
fn backspace_goes_back_where_it_does_not_edit() {
    let mut s = state();
    let step = reduce_screen(&mut s, env(true), Screen::Time { selected: 2 }, InputEvent::Backspace);
    assert_eq!(shown(&step), Screen::Config { selected: 4 });
    let step = reduce_screen(&mut s, env(true), Screen::Config { selected: 3 }, InputEvent::Backspace);
    assert_eq!(shown(&step), Screen::Home);
    let step = reduce_screen(&mut s, env(true), Screen::Device, InputEvent::Backspace);
    assert_eq!(shown(&step), Screen::Config { selected: 2 });
    s.password_input = "ab".to_owned();
    let step = reduce_screen(&mut s, env(true), Screen::WifiPassword { network_index: 0 }, InputEvent::Backspace);
    assert_eq!(shown(&step), Screen::WifiPassword { network_index: 0 });
    assert_eq!(s.password_input, "a");
    assert!(stops_recording(InputEvent::Backspace));
    assert!(stops_recording(InputEvent::Select));
    assert!(!stops_recording(InputEvent::Up));
}

#[test]
fn labels_keep_to_their_buffer_sizes() {
    let long = "abcdefghijklmnopqrstuvwxyz0123456789";
    assert_eq!(truncate_name(long, 32), "abcdefghijklmnopqrstuvwx");
    assert_eq!(truncate_name(long, 5), "abcde");
    let wide = format!("{}\u{e9}b", "a".repeat(23));
    assert_eq!(truncate_name(&wide, 30), format!("{}b", "a".repeat(23)));
    assert_eq!(truncate_name(&"\u{e9}".repeat(13), 30), "\u{e9}".repeat(12));
    assert_eq!(truncate_runtime_label(&"x".repeat(30)), format!("{}~", "x".repeat(23)));
    assert_eq!(truncate_runtime_label(&"\u{e9}".repeat(30)), "\u{e9}".repeat(12));
    assert_eq!(truncate_runtime_label("short"), "short");
    assert_eq!(format_size(12_345_678 * 1024 * 1024), "12345678");
    assert_eq!(format_size(123_456_789 * 1024 * 1024), "");
    assert_eq!(format_size(5 * 1024 * 1024), "5M");
    assert_eq!(format_size(2048), "2K");
    assert_eq!(format_size(100), "100B");
    assert_eq!(timezone_offset_label(1234 * 60), "UTC+1234");
    assert_eq!(timezone_offset_label(-12345 * 60), "UTC-");
    assert_eq!(recording_size_label(u64::MAX), "");
    assert_eq!(recording_size_label(999_999_999_999_999 * 1024), "999999999999999");
    assert_eq!(dns_label("10.0.0.1", "0.0.0.0"), "10.0.0.1");
    assert_eq!(dns_label("10.0.0.1", "8.8.8.8"), "10.0.0.1/8.8.8.8");
    assert_eq!(dns_label("primary.example.test", "secondary.test"), "primary.example.test/");
    assert_eq!(channel9_epoch_label(Some(-42)), "-42");
    assert_eq!(channel9_epoch_label(None), "-");
    assert_eq!(scroll_label(4, 12), "5/12");
    assert_eq!(file_row_label(long, false, false, 2048), "abcdefghijklmnopqrstuvwx 2K");
    assert_eq!(file_row_label("dir", true, false, 2048), "dir");
    let imu = ImuStatus { present: true, name: "BMI270", address: Some(0x68), chip_id: Some(0x04) };
    assert_eq!(imu_status_label(imu), "BMI270 0x68/0x04");
    let long_detail = "e".repeat(60);
    assert_eq!(recorder_failure_message(&long_detail), "Record failed: ");
    assert_eq!(recorder_stop_message(&Err(long_detail)), "Stop failed: ");
}
