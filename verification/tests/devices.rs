use channel9::audio::{
    is_wav_header, soft_limit_i16, wav_header, RecordingProgress, VoiceDenoiser, WAV_HEADER_BYTES,
};
use channel9::ble::{
    advertising_start_refused, handle_gap_event, mark_ready, stop_needs_radio, BleState, GapAction,
    GapEvent, GapOutcome,
};
use channel9::board::{dac_volume_register, startup_progress_fill, Bmi270, InputEvent, Tca8418Keyboard};
use channel9::config::{TimeConfig, WifiConfig, WifiCredential};
use channel9::menu::labels::{BleStatus, TimeSyncStatus};
use channel9::time::{SntpSync, TimeAction, TimeState};
use channel9::wifi::{
    join_step, JoinStep, WifiConnectTarget, select_auth_method, sort_by_signal, startup_candidates, StartupPlan, WifiAuthMethod,
    WifiError, WifiNetwork, WifiState, WifiStatus,
};

fn cred(ssid: &str, password: &str) -> WifiCredential {
    WifiCredential { ssid: ssid.to_string(), password: password.to_string() }
}

fn net(ssid: &str, signal_dbm: i8, auth: Option<WifiAuthMethod>) -> WifiNetwork {
    WifiNetwork { ssid: ssid.to_string(), channel: 6, signal_dbm, auth_method: auth }
}

fn time_config(sync_at_startup: bool) -> TimeConfig {
    TimeConfig {
        sync_at_startup,
        sntp_server: "pool.ntp.org".to_string(),
        timezone_offset_minutes: 0,
    }
}

#[test]
fn soft_limit_values() {
    assert_eq!(soft_limit_i16(1000), 1000);
    assert_eq!(soft_limit_i16(-28000), -28000);
    assert_eq!(soft_limit_i16(32000), 29000);
    assert_eq!(soft_limit_i16(-40000), -31000);
    assert_eq!(soft_limit_i16(100000), 32767);
    assert_eq!(soft_limit_i16(-100000), -32768);
}

#[test]
fn denoiser_removes_dc_and_keeps_odd_byte() {
    let mut filter = VoiceDenoiser::new();
    let mut buffer = vec![0x20, 0x4E, 0x20, 0x4E, 0x05];
    filter.process_pcm16_le(&mut buffer);
    assert_eq!(buffer, vec![0x17, 0x4E, 0x0E, 0x4E, 0x05]);
    let mut quiet = vec![0xE8, 0x03];
    VoiceDenoiser::new().process_pcm16_le(&mut quiet);
    assert_eq!(quiet, vec![0xE8, 0x03]);
}

#[test]
fn wav_header_layout() {
    let header = wav_header(32000, 16000);
    assert_eq!(header.len(), WAV_HEADER_BYTES);
    assert_eq!(
        header,
        vec![
            b'R', b'I', b'F', b'F', 0x24, 0x7D, 0, 0, b'W', b'A', b'V', b'E', b'f', b'm', b't',
            b' ', 16, 0, 0, 0, 1, 0, 1, 0, 0x80, 0x3E, 0, 0, 0x00, 0x7D, 0, 0, 2, 0, 16, 0, b'd',
            b'a', b't', b'a', 0x00, 0x7D, 0, 0,
        ]
    );
    assert!(is_wav_header(&header));
    assert!(!is_wav_header(&vec![0; 12]));
    assert!(!is_wav_header(&header[..11].to_vec()));
    let saturated = wav_header(u32::MAX, 16000);
    assert_eq!(&saturated[4..8], &[0xF7, 0xFF, 0xFF, 0xFF]);
}

#[test]
fn recording_progress_saturates() {
    let mut progress = RecordingProgress::new();
    progress.record_bytes(u32::MAX - 1);
    progress.record_bytes(10);
    assert_eq!(progress.data_bytes, u32::MAX);
    progress.record_timeout();
    progress.record_timeout();
    assert_eq!(progress.read_timeouts, 2);
}

#[test]
fn gap_events_drive_advertising() {
    let mut state = BleState::new();
    assert_eq!(
        handle_gap_event(&mut state, &GapEvent::AdvertisingConfigured(GapOutcome::Success)),
        GapAction::StartAdvertising
    );
    assert_eq!(state.status, BleStatus::Ready);
    handle_gap_event(&mut state, &GapEvent::AdvertisingStarted(GapOutcome::Success));
    assert_eq!(state.status, BleStatus::Advertising);
    assert!(stop_needs_radio(&state));
    let action = handle_gap_event(
        &mut state,
        &GapEvent::AdvertisingStopped(GapOutcome::Failed("ESP_FAIL".to_string())),
    );
    assert_eq!(action, GapAction::Nothing);
    assert_eq!(state.status, BleStatus::Failed);
    assert_eq!(state.last_error.as_deref(), Some("advertising stop failed: ESP_FAIL"));
    assert!(!stop_needs_radio(&state));
    mark_ready(&mut state);
    assert_eq!(state, BleState::new());
    advertising_start_refused(&mut state, "no memory".to_string());
    assert_eq!(state.status, BleStatus::Failed);
    assert_eq!(state.last_error.as_deref(), Some("no memory"));
}

#[test]
fn time_sync_flow_and_timeout() {
    let mut time = TimeState::new();
    assert_eq!(time.start(&time_config(false)), TimeAction::Stop);
    assert_eq!(time.status, TimeSyncStatus::Disabled);
    assert_eq!(
        time.sync_now(&time_config(true)),
        TimeAction::StartSync { server: "pool.ntp.org".to_string() }
    );
    time.sync_started(1_000);
    assert_eq!(time.status(Some(SntpSync::InProgress), 5_000), TimeSyncStatus::InProgress);
    assert_eq!(time.status(Some(SntpSync::InProgress), 21_000), TimeSyncStatus::Failed);
    assert_eq!(time.last_error(), Some("sntp sync timeout"));
    assert!(!time.sntp_running);
    time.sync_started(30_000);
    assert_eq!(time.status(Some(SntpSync::Completed), 31_000), TimeSyncStatus::Synced);
    assert_eq!(time.last_error(), None);
    time.sync_failed();
    assert_eq!(time.last_error(), Some("failed to start sntp"));
    assert_eq!(time.status(None, 99_000), TimeSyncStatus::Failed);
}

#[test]
fn wifi_auth_selection() {
    assert_eq!(select_auth_method(&cred("a", ""), Some(WifiAuthMethod::WPA3Personal)), WifiAuthMethod::NoAuth);
    assert_eq!(select_auth_method(&cred("a", "pw"), None), WifiAuthMethod::WPA2Personal);
    assert_eq!(
        select_auth_method(&cred("a", "pw"), Some(WifiAuthMethod::NoAuth)),
        WifiAuthMethod::WPA2Personal
    );
    assert_eq!(
        select_auth_method(&cred("a", "pw"), Some(WifiAuthMethod::WPA3Personal)),
        WifiAuthMethod::WPA3Personal
    );
}

#[test]
fn wifi_station_states() {
    let mut wifi = WifiState::new();
    let off = WifiConfig { connect_at_startup: false, credentials: vec![cred("home", "pw")] };
    assert_eq!(wifi.startup_plan(&off), StartupPlan::Disabled);
    assert_eq!(wifi.status, WifiStatus::Disabled);
    let empty = WifiConfig { connect_at_startup: true, credentials: Vec::new() };
    assert_eq!(wifi.startup_plan(&empty), StartupPlan::NoCredentials);
    assert_eq!(wifi.status, WifiStatus::Idle);
    let long_ssid = "s".repeat(33);
    assert_eq!(wifi.begin_connect(&cred(&long_ssid, "pw")), Err(WifiError::SsidTooLong));
    assert_eq!(wifi.begin_connect(&cred("home", &"p".repeat(65))), Err(WifiError::PasswordTooLong));
    assert_eq!(WifiError::PasswordTooLong.message(), "wifi password is too long");
    assert_eq!(wifi.begin_connect(&cred("home", "pw")), Ok(()));
    wifi.mark_started();
    assert_eq!(wifi.connection_ssid(), None);
    wifi.connect_finished(Ok(()));
    assert_eq!(wifi.connection_ssid(), Some("home".to_string()));
    wifi.connect_finished(Err("auth".to_string()));
    assert_eq!(wifi.status, WifiStatus::Failed);
    assert_eq!(wifi.last_error.as_deref(), Some("auth"));
    wifi.mark_stopped();
    assert_eq!(wifi.status, WifiStatus::Idle);
}

#[test]
fn startup_candidates_follow_scan_order() {
    let config = WifiConfig {
        connect_at_startup: true,
        credentials: vec![cred("home", "pw"), cred("office", "pw2")],
    };
    let scan = vec![net("office", -40, Some(WifiAuthMethod::WPA2Personal)), net("cafe", -30, None), net("home", -70, None)];
    let targets = startup_candidates(Some(&scan), &config).unwrap();
    let ssids: Vec<&str> = targets.iter().map(|t| t.credential.ssid.as_str()).collect();
    assert_eq!(ssids, vec!["office", "home"]);
    assert_eq!(targets[0].auth_method, Some(WifiAuthMethod::WPA2Personal));
    assert_eq!(targets[0].channel, Some(6));
    assert!(startup_candidates(Some(&vec![net("cafe", -30, None)]), &config).is_none());
    let blind = startup_candidates(None, &config).unwrap();
    assert_eq!(blind.len(), 2);
    assert_eq!(blind[1].credential.ssid, "office");
    assert_eq!(blind[1].channel, None);
}

#[test]
fn scan_results_strongest_first() {
    let sorted = sort_by_signal(vec![net("a", -70, None), net("b", -30, None), net("c", -70, None), net("d", -50, None)]);
    let ssids: Vec<&str> = sorted.iter().map(|n| n.ssid.as_str()).collect();
    assert_eq!(ssids, vec!["b", "d", "a", "c"]);
}

#[test]
fn keyboard_decodes_keys_and_modifiers() {
    let mut keyboard = Tca8418Keyboard::released();
    assert_eq!(keyboard.map_key_event(13, true), Some(InputEvent::Char('a')));
    assert_eq!(keyboard.map_key_event(13, false), None);
    assert_eq!(keyboard.decode_events(&vec![0x80 | 7, 0x80 | 13]), Some(InputEvent::Char('A')));
    assert_eq!(keyboard.decode_events(&vec![7]), None);
    assert_eq!(keyboard.decode_events(&vec![0x80 | 3, 0x80 | 54]), Some(InputEvent::Left));
    assert_eq!(keyboard.decode_events(&vec![3, 0x80 | 54]), Some(InputEvent::Up));
    assert_eq!(keyboard.map_key_event(67, true), Some(InputEvent::Select));
    assert_eq!(keyboard.map_key_event(65, true), Some(InputEvent::Backspace));
    assert_eq!(keyboard.map_key_event(1, true), Some(InputEvent::Back));
    assert_eq!(keyboard.map_key_event(9, true), None);
    assert_eq!(keyboard.map_key_event(0, true), None);
}

#[test]
fn imu_chip_id_and_speaker_volume() {
    assert!(Bmi270::check_chip_id(0x68, 0x24).is_ok());
    assert_eq!(
        Bmi270::check_chip_id(0x68, 0x25).unwrap_err(),
        "bmi270 unexpected chip id 0x25 at 0x68"
    );
    let imu = Bmi270::check_chip_id(0x69, 0x24).unwrap().status();
    assert_eq!(imu.address, Some(0x69));
    assert_eq!(imu.chip_id, Some(0x24));
    assert_eq!(dac_volume_register(0), 0);
    assert_eq!(dac_volume_register(50), 95);
    assert_eq!(dac_volume_register(100), 0xBF);
    assert_eq!(dac_volume_register(150), 0xBF);
}

#[test]
fn startup_progress_bar_fill() {
    assert_eq!(startup_progress_fill(0), 0);
    assert_eq!(startup_progress_fill(15), 27);
    assert_eq!(startup_progress_fill(95), 174);
    assert_eq!(startup_progress_fill(100), 184);
    assert_eq!(startup_progress_fill(250), 184);
}

fn target(ssid: &str) -> WifiConnectTarget {
    WifiConnectTarget::without_hint(cred(ssid, "pw"))
}

#[test]
fn startup_join_stops_at_first_success_or_reports_last_error() {
    let targets = vec![target("home"), target("office")];
    assert!(matches!(join_step::<String>(&targets, 0, None), JoinStep::Attempt(0)));
    assert!(matches!(join_step(&targets, 1, Some(Err("auth".to_string()))), JoinStep::Attempt(1)));
    match join_step::<String>(&targets, 1, Some(Ok(()))) {
        JoinStep::Done(Ok(Some(ssid))) => assert_eq!(ssid, "home"),
        other => panic!("unexpected {other:?}"),
    }
    match join_step(&targets, 2, Some(Err("timeout".to_string()))) {
        JoinStep::Done(Err(err)) => assert_eq!(err, "timeout"),
        other => panic!("unexpected {other:?}"),
    }
    assert!(matches!(join_step::<String>(&Vec::new(), 0, None), JoinStep::Done(Ok(None))));
}
