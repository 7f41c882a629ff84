//! What each key does on each screen, stated over the views of the screen
//! data: the next screen, the data edited, and the work asked of the
//! firmware.

use vstd::prelude::*;

use crate::board::InputEvent;
use crate::config::{AppConfigView, Channel9ConfigView, CredentialView, WifiConfigView};
use crate::menu::labels::{config_logged_in, channel9_rows, menu_login_block, next_offset, next_server};
use crate::menu::state::{
    Channel9InputField, EffectView, MenuLoginView, NextView, Screen, ScreenEnv, ScreenStateView,
    StepView, TaskView,
};
use crate::runtime::messages::{error_label, user_code_label};
use crate::runtime::types::{DeviceCodeView, PollTokenView};
use crate::text::{byte_len, hex_lower, trim};
use crate::wifi::credential_index_from;

verus! {

/// Rows of the configuration menu.
pub const CONFIG_ITEM_COUNT: usize = 8;

/// Rows of the WiFi menu.
pub const WIFI_ITEM_COUNT: usize = 5;

/// Rows of the storage menu.
pub const STORAGE_ITEM_COUNT: usize = 4;

/// Rows of the time menu.
pub const TIME_ITEM_COUNT: usize = 5;

/// Rows of the audio menu.
pub const AUDIO_ITEM_COUNT: usize = 2;

/// Longest WiFi password the password screen accepts, in bytes.
pub const PASSWORD_MAX_BYTES: usize = 64;

/// Longest device id the Channel9 input screen accepts, in bytes.
pub const CHANNEL9_INPUT_MAX_BYTES: usize = 128;

/// `a - b`, or zero when `b` is larger.
pub open spec fn sat_sub(a: usize, b: usize) -> usize {
    if a >= b {
        (a - b) as usize
    } else {
        0
    }
}

pub open spec fn min_usize(a: usize, b: usize) -> usize {
    if a <= b {
        a
    } else {
        b
    }
}

pub open spec fn is_up_or_left(input: InputEvent) -> bool {
    input is Up || input is Left
}

pub open spec fn is_down_or_right(input: InputEvent) -> bool {
    input is Down || input is Right
}

pub open spec fn is_back_or_select(input: InputEvent) -> bool {
    input is Back || input is Select
}

/// The keys on which the firmware would overflow a row index or index past
/// the WiFi menu: the only inputs `reduce_screen` refuses.
pub open spec fn reduce_defined(screen: Screen, input: InputEvent) -> bool {
    match screen {
        Screen::Config { selected } => is_down_or_right(input) ==> selected < usize::MAX,
        Screen::Wifi { selected } => (is_down_or_right(input) ==> selected < usize::MAX) && (
        input is Select ==> selected < WIFI_ITEM_COUNT),
        Screen::WifiSaved { selected } => is_down_or_right(input) ==> selected < usize::MAX,
        Screen::WifiScan { selected } => is_down_or_right(input) ==> selected < usize::MAX,
        Screen::Storage { selected } => is_down_or_right(input) ==> selected < usize::MAX,
        Screen::Time { selected } => is_down_or_right(input) ==> selected < usize::MAX,
        Screen::Audio { selected } => input is Down ==> selected < usize::MAX,
        Screen::Channel9 { selected } => is_down_or_right(input) ==> selected < usize::MAX,
        Screen::Recorder { selected } => is_down_or_right(input) ==> selected < usize::MAX,
        _ => true,
    }
}

pub open spec fn show(s: ScreenStateView, screen: Screen) -> (ScreenStateView, StepView) {
    (s, StepView { effects: Seq::empty(), next: NextView::Show(screen) })
}

pub open spec fn show_after(
    s: ScreenStateView,
    effects: Seq<EffectView>,
    screen: Screen,
) -> (ScreenStateView, StepView) {
    (s, StepView { effects, next: NextView::Show(screen) })
}

pub open spec fn with_config(s: ScreenStateView, config: AppConfigView) -> ScreenStateView {
    ScreenStateView { config, ..s }
}

pub open spec fn with_wifi(config: AppConfigView, wifi: WifiConfigView) -> AppConfigView {
    AppConfigView { wifi, ..config }
}

pub open spec fn with_channel9(config: AppConfigView, channel9: Channel9ConfigView) -> AppConfigView {
    AppConfigView { channel9, ..config }
}

pub open spec fn with_login(
    s: ScreenStateView,
    active_code: Option<DeviceCodeView>,
    message: Seq<char>,
) -> ScreenStateView {
    ScreenStateView { login: MenuLoginView { active_code, message }, ..s }
}

pub open spec fn with_message(s: ScreenStateView, message: Seq<char>) -> ScreenStateView {
    with_login(s, s.login.active_code, message)
}

/// Does the device still carry no name of its own: blank, or the board's
/// generic name.
pub open spec fn needs_device_name(config: AppConfigView) -> bool {
    let current = trim(config.channel9.device_id);
    current.len() == 0 || current == "cardputer-adv"@
}

/// The name given to an unnamed device: "cardputer_" and eight hex digits.
pub open spec fn generated_device_id(random: u32) -> Seq<char> {
    "cardputer_"@ + hex_lower(random as nat, 8)
}

pub open spec fn with_device_id(config: AppConfigView, device_id: Seq<char>) -> AppConfigView {
    with_channel9(config, Channel9ConfigView { device_id, ..config.channel9 })
}

/// Names the device if it has no name of its own, saving the change.
pub open spec fn name_device(s: ScreenStateView, random: u32) -> (ScreenStateView, Seq<EffectView>) {
    if needs_device_name(s.config) {
        (
            with_config(s, with_device_id(s.config, generated_device_id(random))),
            seq![EffectView::SaveConfig],
        )
    } else {
        (s, Seq::empty())
    }
}

/// Starts creating a device code: refused with the reason when the device
/// has no id or WiFi is offline; otherwise the message is cleared and the
/// request is made.
pub open spec fn begin_create(
    s: ScreenStateView,
    effects: Seq<EffectView>,
    env: ScreenEnv,
    return_to: Screen,
) -> (ScreenStateView, StepView) {
    match menu_login_block(s.config, env.wifi_connected) {
        Some(reason) => show_after(with_message(s, reason), effects, return_to),
        None => (
            with_message(s, Seq::empty()),
            StepView {
                effects,
                next: NextView::Await(
                    TaskView::CreateDeviceCode {
                        device_id: s.config.channel9.device_id,
                        description: s.config.channel9.description,
                        interfaces: s.config.channel9.interfaces,
                        return_to,
                    },
                ),
            },
        ),
    }
}

/// Starts polling for the token: refused when WiFi is offline or no code
/// is shown; otherwise the message is cleared and the poll is made.
pub open spec fn begin_poll(s: ScreenStateView, env: ScreenEnv, return_to: Screen) -> (
    ScreenStateView,
    StepView,
) {
    if !env.wifi_connected {
        show(with_message(s, "WiFi offline"@), return_to)
    } else {
        match s.login.active_code {
            None => show(with_message(s, "Create code first"@), return_to),
            Some(code) => (
                with_message(s, Seq::empty()),
                StepView {
                    effects: Seq::empty(),
                    next: NextView::Await(
                        TaskView::PollDeviceToken {
                            device_code: code.device_code,
                            user_code: code.user_code,
                            return_to,
                        },
                    ),
                },
            ),
        }
    }
}

/// Opening the Channel9 screen: names the device if needed and shows the
/// screen; no request is made until one of its actions asks for it.
pub open spec fn open_channel9(s: ScreenStateView, env: ScreenEnv) -> (ScreenStateView, StepView) {
    let (named, effects) = name_device(s, env.random);
    show_after(named, effects, Screen::Channel9 { selected: 0 })
}

pub open spec fn reduce_config(s: ScreenStateView, env: ScreenEnv, selected: usize, input: InputEvent) -> (
    ScreenStateView,
    StepView,
) {
    if input is Back {
        show(s, Screen::Home)
    } else if is_up_or_left(input) {
        show(
            s,
            Screen::Config {
                selected: if selected == 0 {
                    (CONFIG_ITEM_COUNT - 1) as usize
                } else {
                    (selected - 1) as usize
                },
            },
        )
    } else if is_down_or_right(input) {
        show(s, Screen::Config { selected: ((selected + 1) % (CONFIG_ITEM_COUNT as int)) as usize })
    } else if input is Select {
        if selected == 0 {
            show(s, Screen::Wifi { selected: 0 })
        } else if selected == 1 {
            show(s, Screen::Storage { selected: 0 })
        } else if selected == 2 {
            show(s, Screen::Device)
        } else if selected == 3 {
            show(s, Screen::Files)
        } else if selected == 4 {
            show(s, Screen::Time { selected: 0 })
        } else if selected == 5 {
            show(s, Screen::Audio { selected: 0 })
        } else if selected == 6 {
            open_channel9(s, env)
        } else if selected == 7 {
            show(s, Screen::Recorder { selected: 0 })
        } else {
            show(s, Screen::Config { selected })
        }
    } else {
        show(s, Screen::Config { selected })
    }
}

pub open spec fn reduce_wifi(s: ScreenStateView, env: ScreenEnv, selected: usize, input: InputEvent) -> (
    ScreenStateView,
    StepView,
) {
    if input is Back {
        show(s, Screen::Config { selected: 0 })
    } else if is_up_or_left(input) {
        show(s, Screen::Wifi { selected: sat_sub(selected, 1) })
    } else if is_down_or_right(input) {
        show(
            s,
            Screen::Wifi {
                selected: min_usize((selected + 1) as usize, (WIFI_ITEM_COUNT - 1) as usize),
            },
        )
    } else if input is Select {
        if selected == 4 {
            show(s, Screen::Config { selected: 0 })
        } else if selected == 1 {
            show(s, Screen::WifiResult)
        } else if selected == 2 {
            show(s, Screen::WifiSaved { selected: 0 })
        } else if selected == 3 {
            let cleared = ScreenStateView { scan_results: Seq::empty(), ..s };
            if env.wifi_available {
                (
                    cleared,
                    StepView {
                        effects: Seq::empty(),
                        next: NextView::Await(TaskView::ScanWifi { selected }),
                    },
                )
            } else {
                show(cleared, Screen::Wifi { selected })
            }
        } else if selected == 0 {
            show_after(
                with_config(
                    s,
                    with_wifi(
                        s.config,
                        WifiConfigView {
                            connect_at_startup: !s.config.wifi.connect_at_startup,
                            ..s.config.wifi
                        },
                    ),
                ),
                seq![EffectView::SaveConfig],
                Screen::Wifi { selected },
            )
        } else {
            show(s, Screen::Wifi { selected })
        }
    } else {
        show(s, Screen::Wifi { selected })
    }
}

pub open spec fn reduce_wifi_saved(
    s: ScreenStateView,
    env: ScreenEnv,
    selected: usize,
    input: InputEvent,
) -> (ScreenStateView, StepView) {
    let n = s.config.wifi.credentials.len();
    if input is Back {
        show(s, Screen::Wifi { selected: 2 })
    } else if is_up_or_left(input) {
        show(s, Screen::WifiSaved { selected: sat_sub(selected, 1) })
    } else if is_down_or_right(input) {
        show(
            s,
            Screen::WifiSaved { selected: min_usize((selected + 1) as usize, sat_sub(n as usize, 1)) },
        )
    } else if input is Backspace {
        if selected < n {
            let creds = s.config.wifi.credentials.remove(selected as int);
            let wifi = WifiConfigView {
                connect_at_startup: if creds.len() == 0 {
                    false
                } else {
                    s.config.wifi.connect_at_startup
                },
                credentials: creds,
            };
            show_after(
                with_config(s, with_wifi(s.config, wifi)),
                seq![EffectView::SaveConfig],
                Screen::WifiSaved { selected: min_usize(selected, sat_sub(creds.len() as usize, 1)) },
            )
        } else {
            show(s, Screen::WifiSaved { selected: min_usize(selected, sat_sub(n as usize, 1)) })
        }
    } else if input is Select {
        if env.wifi_available && selected < n {
            (
                s,
                StepView {
                    effects: Seq::empty(),
                    next: NextView::Await(
                        TaskView::ConnectWifi { credential: s.config.wifi.credentials[selected as int] },
                    ),
                },
            )
        } else {
            show(s, Screen::WifiSaved { selected })
        }
    } else {
        show(s, Screen::WifiSaved { selected })
    }
}

pub open spec fn reduce_wifi_scan(s: ScreenStateView, selected: usize, input: InputEvent) -> (
    ScreenStateView,
    StepView,
) {
    let n = s.scan_results.len();
    if input is Back {
        show(s, Screen::Wifi { selected: 3 })
    } else if is_up_or_left(input) {
        show(s, Screen::WifiScan { selected: sat_sub(selected, 1) })
    } else if is_down_or_right(input) {
        show(
            s,
            Screen::WifiScan { selected: min_usize((selected + 1) as usize, sat_sub(n as usize, 1)) },
        )
    } else if input is Select {
        if n == 0 {
            show(s, Screen::Wifi { selected: 3 })
        } else {
            show(
                ScreenStateView { password_input: Seq::empty(), ..s },
                Screen::WifiPassword { network_index: min_usize(selected, (n - 1) as usize) },
            )
        }
    } else {
        show(s, Screen::WifiScan { selected })
    }
}

/// The saved credentials with `credential` saved: it replaces the first one
/// for the same network, or is added at the end.
pub open spec fn upsert(creds: Seq<CredentialView>, credential: CredentialView) -> Seq<
    CredentialView,
> {
    match credential_index_from(creds, credential.ssid, 0) {
        Some(i) => creds.update(i, credential),
        None => creds.push(credential),
    }
}

pub open spec fn reduce_wifi_password(
    s: ScreenStateView,
    env: ScreenEnv,
    network_index: usize,
    input: InputEvent,
) -> (ScreenStateView, StepView) {
    let here = Screen::WifiPassword { network_index };
    match input {
        InputEvent::Back => show(s, Screen::WifiScan { selected: network_index }),
        InputEvent::Backspace => show(
            ScreenStateView {
                password_input: if s.password_input.len() > 0 {
                    s.password_input.drop_last()
                } else {
                    s.password_input
                },
                ..s
            },
            here,
        ),
        InputEvent::Char(c) => show(
            ScreenStateView {
                password_input: if (byte_len(s.password_input) as usize) < PASSWORD_MAX_BYTES {
                    s.password_input.push(c)
                } else {
                    s.password_input
                },
                ..s
            },
            here,
        ),
        InputEvent::Select => if env.wifi_available && network_index < s.scan_results.len() {
            let credential = CredentialView {
                ssid: s.scan_results[network_index as int].ssid,
                password: s.password_input,
            };
            let wifi = WifiConfigView {
                connect_at_startup: true,
                credentials: upsert(s.config.wifi.credentials, credential),
            };
            (
                ScreenStateView {
                    config: with_wifi(s.config, wifi),
                    password_input: Seq::empty(),
                    ..s
                },
                StepView {
                    effects: seq![EffectView::SaveConfig],
                    next: NextView::Await(TaskView::ConnectWifi { credential }),
                },
            )
        } else {
            show(s, Screen::Wifi { selected: 2 })
        },
        _ => show(s, here),
    }
}

pub open spec fn reduce_storage(s: ScreenStateView, env: ScreenEnv, selected: usize, input: InputEvent) -> (
    ScreenStateView,
    StepView,
) {
    if input is Back {
        show(s, Screen::Config { selected: 1 })
    } else if is_up_or_left(input) {
        show(s, Screen::Storage { selected: sat_sub(selected, 1) })
    } else if is_down_or_right(input) {
        show(
            s,
            Screen::Storage {
                selected: min_usize((selected + 1) as usize, (STORAGE_ITEM_COUNT - 1) as usize),
            },
        )
    } else if input is Select {
        if selected == 0 {
            show_after(
                with_config(
                    s,
                    AppConfigView {
                        storage: crate::config::StorageView {
                            prefer_sdcard: !s.config.storage.prefer_sdcard,
                            ..s.config.storage
                        },
                        ..s.config
                    },
                ),
                seq![EffectView::SaveConfig],
                Screen::Storage { selected },
            )
        } else if selected == 2 && env.sdcard_mounted {
            show(s, Screen::Files)
        } else if selected == 3 {
            show(s, Screen::Config { selected: 1 })
        } else {
            show(s, Screen::Storage { selected })
        }
    } else {
        show(s, Screen::Storage { selected })
    }
}

pub open spec fn with_time(
    config: AppConfigView,
    time: crate::config::TimeView,
) -> AppConfigView {
    AppConfigView { time, ..config }
}

pub open spec fn reduce_time(s: ScreenStateView, selected: usize, input: InputEvent) -> (
    ScreenStateView,
    StepView,
) {
    let here = Screen::Time { selected };
    let t = s.config.time;
    if input is Back {
        show(s, Screen::Config { selected: 4 })
    } else if is_up_or_left(input) {
        show(s, Screen::Time { selected: sat_sub(selected, 1) })
    } else if is_down_or_right(input) {
        show(
            s,
            Screen::Time {
                selected: min_usize((selected + 1) as usize, (TIME_ITEM_COUNT - 1) as usize),
            },
        )
    } else if input is Select {
        if selected == 0 {
            show_after(
                with_config(
                    s,
                    with_time(
                        s.config,
                        crate::config::TimeView { sync_at_startup: !t.sync_at_startup, ..t },
                    ),
                ),
                seq![EffectView::SaveConfig, EffectView::StartTimeSync],
                here,
            )
        } else if selected == 1 {
            show_after(
                with_config(
                    s,
                    with_time(
                        s.config,
                        crate::config::TimeView { sntp_server: next_server(t.sntp_server), ..t },
                    ),
                ),
                seq![EffectView::SaveConfig, EffectView::SyncTimeNow],
                here,
            )
        } else if selected == 2 {
            show_after(
                with_config(
                    s,
                    with_time(
                        s.config,
                        crate::config::TimeView {
                            timezone_offset_minutes: next_offset(t.timezone_offset_minutes),
                            ..t
                        },
                    ),
                ),
                seq![EffectView::SaveConfig],
                here,
            )
        } else if selected == 3 {
            show_after(s, seq![EffectView::SyncTimeNow], here)
        } else if selected == 4 {
            show(s, Screen::Config { selected: 4 })
        } else {
            show(s, here)
        }
    } else {
        show(s, here)
    }
}

/// The speaker volume after a step of `delta` percent, kept within 0..=100.
pub open spec fn stepped_volume(volume: u8, delta: int) -> u8 {
    let current = if volume <= 100 {
        volume as int
    } else {
        100
    };
    let next = current + delta;
    if next < 0 {
        0
    } else if next > 100 {
        100
    } else {
        next as u8
    }
}

/// Steps the speaker volume; applies it to the codec when it changed.
pub open spec fn adjust_volume(s: ScreenStateView, delta: int) -> (ScreenStateView, Seq<EffectView>) {
    let next = stepped_volume(s.config.audio.speaker_volume_percent, delta);
    if next == s.config.audio.speaker_volume_percent {
        (s, Seq::empty())
    } else {
        (
            with_config(
                s,
                AppConfigView {
                    audio: crate::config::AudioConfig { speaker_volume_percent: next },
                    ..s.config
                },
            ),
            seq![EffectView::ApplySpeakerVolume],
        )
    }
}

pub open spec fn reduce_audio(s: ScreenStateView, selected: usize, input: InputEvent) -> (
    ScreenStateView,
    StepView,
) {
    if input is Back {
        show_after(s, seq![EffectView::SaveConfig], Screen::Config { selected: 5 })
    } else if input is Up {
        show(s, Screen::Audio { selected: sat_sub(selected, 1) })
    } else if input is Down {
        show(
            s,
            Screen::Audio {
                selected: min_usize((selected + 1) as usize, (AUDIO_ITEM_COUNT - 1) as usize),
            },
        )
    } else if selected == 0 && input is Left {
        let (next, effects) = adjust_volume(s, -5);
        show_after(next, effects, Screen::Audio { selected: 0 })
    } else if selected == 0 && (input is Right || input is Select) {
        let (next, effects) = adjust_volume(s, 5);
        show_after(next, effects, Screen::Audio { selected: 0 })
    } else if selected == 1 && input is Select {
        show_after(s, seq![EffectView::SaveConfig], Screen::Config { selected: 5 })
    } else {
        show(s, Screen::Audio { selected })
    }
}

pub open spec fn reduce_channel9(
    s: ScreenStateView,
    env: ScreenEnv,
    selected: usize,
    input: InputEvent,
) -> (ScreenStateView, StepView) {
    let here = Screen::Channel9 { selected };
    if input is Back {
        show(s, Screen::Config { selected: 6 })
    } else if is_up_or_left(input) {
        show(s, Screen::Channel9 { selected: sat_sub(selected, 1) })
    } else if is_down_or_right(input) {
        show(
            s,
            Screen::Channel9 {
                selected: min_usize((selected + 1) as usize, sat_sub(channel9_rows(s.config), 1)),
            },
        )
    } else if input is Select {
        if config_logged_in(s.config) {
            if selected == 5 {
                show_after(
                    with_login(
                        with_config(
                            s,
                            with_channel9(
                                s.config,
                                Channel9ConfigView {
                                    access_token: None,
                                    token_expires_at: None,
                                    ..s.config.channel9
                                },
                            ),
                        ),
                        None,
                        "Token cleared"@,
                    ),
                    seq![EffectView::SaveConfig],
                    Screen::Channel9 { selected: 0 },
                )
            } else if selected == 6 {
                show(s, Screen::Config { selected: 6 })
            } else {
                show(s, here)
            }
        } else if selected == 0 && s.login.active_code is Some {
            begin_poll(s, env, here)
        } else if selected == 0 {
            begin_create(s, Seq::empty(), env, here)
        } else if selected == 2 {
            begin_poll(s, env, here)
        } else if selected == 1 {
            show(
                ScreenStateView { channel9_input: s.config.channel9.device_id, ..s },
                Screen::Channel9Input { field: Channel9InputField::Device },
            )
        } else if selected == 3 {
            begin_create(s, Seq::empty(), env, here)
        } else if selected == 4 {
            show(s, Screen::Config { selected: 6 })
        } else {
            show(s, here)
        }
    } else {
        show(s, here)
    }
}

pub open spec fn reduce_channel9_input(
    s: ScreenStateView,
    field: Channel9InputField,
    input: InputEvent,
) -> (ScreenStateView, StepView) {
    let here = Screen::Channel9Input { field };
    match input {
        InputEvent::Back => show(s, Screen::Channel9 { selected: 0 }),
        InputEvent::Backspace => show(
            ScreenStateView {
                channel9_input: if s.channel9_input.len() > 0 {
                    s.channel9_input.drop_last()
                } else {
                    s.channel9_input
                },
                ..s
            },
            here,
        ),
        InputEvent::Char(c) => show(
            ScreenStateView {
                channel9_input: if (byte_len(s.channel9_input) as usize) < CHANNEL9_INPUT_MAX_BYTES {
                    s.channel9_input.push(c)
                } else {
                    s.channel9_input
                },
                ..s
            },
            here,
        ),
        InputEvent::Select => show_after(
            with_login(
                ScreenStateView {
                    config: with_device_id(s.config, trim(s.channel9_input)),
                    channel9_input: Seq::empty(),
                    ..s
                },
                None,
                "Press Refresh"@,
            ),
            seq![EffectView::SaveConfig],
            Screen::Channel9 { selected: 0 },
        ),
        _ => show(s, here),
    }
}

pub open spec fn reduce_recorder(s: ScreenStateView, selected: usize, input: InputEvent) -> (
    ScreenStateView,
    StepView,
) {
    let n = s.recordings.len();
    if input is Back {
        show(s, Screen::Config { selected: 7 })
    } else if is_up_or_left(input) {
        show(s, Screen::Recorder { selected: sat_sub(selected, 1) })
    } else if is_down_or_right(input) {
        show(s, Screen::Recorder { selected: min_usize((selected + 1) as usize, n as usize) })
    } else if input is Backspace {
        if selected > 0 {
            (
                s,
                StepView {
                    effects: if selected - 1 < n {
                        seq![EffectView::DeleteVoiceNote(s.recordings[selected - 1].path)]
                    } else {
                        Seq::empty()
                    },
                    next: NextView::Await(TaskView::ReloadRecordings { selected }),
                },
            )
        } else {
            show(s, Screen::Recorder { selected: 0 })
        }
    } else if input is Select {
        if selected == 0 {
            show(s, Screen::Recording)
        } else if selected - 1 < n {
            show_after(
                s,
                seq![EffectView::PlayVoiceNote(s.recordings[selected - 1].path)],
                Screen::Recorder { selected },
            )
        } else {
            show(s, Screen::Recorder { selected })
        }
    } else {
        show(s, Screen::Recorder { selected })
    }
}

/// What `input` does on `screen`: the screen data afterwards, the work to
/// do, and the next screen or the call to make first.
/// Does Backspace edit on this screen: it deletes a saved network or a
/// voice note, and erases a character of the two text inputs.
pub open spec fn backspace_edits(screen: Screen) -> bool {
    screen is WifiSaved || screen is WifiPassword || screen is Channel9Input || screen is Recorder
}

/// The key a screen acts on: Backspace goes back, like the Back key, on every
/// screen where it does not edit.
pub open spec fn screen_key(screen: Screen, input: InputEvent) -> InputEvent {
    if input is Backspace && !backspace_edits(screen) {
        InputEvent::Back
    } else {
        input
    }
}

/// What a key press does on a screen.
pub open spec fn reduce(s: ScreenStateView, env: ScreenEnv, screen: Screen, input: InputEvent) -> (
    ScreenStateView,
    StepView,
) {
    reduce_key(s, env, screen, screen_key(screen, input))
}

/// What a key does on a screen, once Backspace is read as the screen reads it.
pub open spec fn reduce_key(s: ScreenStateView, env: ScreenEnv, screen: Screen, input: InputEvent) -> (
    ScreenStateView,
    StepView,
) {
    match screen {
        Screen::Home => if input is Select {
            show(s, Screen::Config { selected: 0 })
        } else {
            show(s, screen)
        },
        Screen::Config { selected } => reduce_config(s, env, selected, input),
        Screen::Wifi { selected } => reduce_wifi(s, env, selected, input),
        Screen::WifiSaved { selected } => reduce_wifi_saved(s, env, selected, input),
        Screen::WifiScan { selected } => reduce_wifi_scan(s, selected, input),
        Screen::WifiPassword { network_index } => reduce_wifi_password(s, env, network_index, input),
        Screen::WifiResult => if is_back_or_select(input) {
            show(s, Screen::Wifi { selected: 1 })
        } else {
            show(s, screen)
        },
        Screen::Storage { selected } => reduce_storage(s, env, selected, input),
        Screen::Device => if is_back_or_select(input) {
            show(s, Screen::Config { selected: 2 })
        } else {
            show(s, screen)
        },
        Screen::Files => if is_back_or_select(input) {
            show(s, Screen::Config { selected: 3 })
        } else {
            show(s, screen)
        },
        Screen::Time { selected } => reduce_time(s, selected, input),
        Screen::Audio { selected } => reduce_audio(s, selected, input),
        Screen::Channel9 { selected } => reduce_channel9(s, env, selected, input),
        Screen::Channel9Input { field } => reduce_channel9_input(s, field, input),
        Screen::Recorder { selected } => reduce_recorder(s, selected, input),
        Screen::Recording => show(s, screen),
        Screen::RecorderMessage => if is_back_or_select(input) {
            show(s, Screen::Recorder { selected: 0 })
        } else {
            show(s, screen)
        },
    }
}

/// After a WiFi scan: the networks found and the scan screen, or the WiFi
/// menu again when the scan failed.
pub open spec fn after_scan(
    s: ScreenStateView,
    selected: usize,
    found: Option<Seq<crate::wifi::WifiNetworkView>>,
) -> (ScreenStateView, Screen) {
    match found {
        Some(networks) => (ScreenStateView { scan_results: networks, ..s }, Screen::WifiScan { selected: 0 }),
        None => (s, Screen::Wifi { selected }),
    }
}

/// After a device-code request: the code is shown and any token dropped, or
/// the error is reported.
pub open spec fn after_create(
    s: ScreenStateView,
    result: Result<DeviceCodeView, Seq<char>>,
    return_to: Screen,
) -> (ScreenStateView, StepView) {
    match result {
        Ok(code) => show_after(
            with_login(
                with_config(
                    s,
                    with_channel9(
                        s.config,
                        Channel9ConfigView {
                            access_token: None,
                            token_expires_at: None,
                            ..s.config.channel9
                        },
                    ),
                ),
                Some(code),
                "Code "@ + user_code_label(code.user_code),
            ),
            seq![EffectView::SaveConfig],
            return_to,
        ),
        Err(e) => show(with_message(s, error_label("Create failed"@, e)), return_to),
    }
}

/// After a token poll: still pending, or the approved token is saved and
/// the code dropped, or the error is reported.
pub open spec fn after_poll(
    s: ScreenStateView,
    user_code: Seq<char>,
    result: Result<PollTokenView, Seq<char>>,
    return_to: Screen,
) -> (ScreenStateView, StepView) {
    match result {
        Ok(PollTokenView::Pending) => show(
            with_message(s, "Pending "@ + user_code_label(user_code)),
            return_to,
        ),
        Ok(PollTokenView::Approved(token)) => show_after(
            with_login(
                with_config(
                    s,
                    with_channel9(
                        s.config,
                        Channel9ConfigView {
                            access_token: Some(token.access_token),
                            token_expires_at: Some(token.expires_at),
                            workspace_id: token.workspace_id,
                            device_id: token.device_id,
                            ..s.config.channel9
                        },
                    ),
                ),
                None,
                "Login saved"@,
            ),
            seq![EffectView::SaveConfig],
            return_to,
        ),
        Err(e) => show(with_message(s, error_label("Poll failed"@, e)), return_to),
    }
}

/// After the recordings were listed again: the new list, and the recorder
/// with the selection kept within it.
pub open spec fn after_reload(
    s: ScreenStateView,
    selected: usize,
    recordings: Seq<crate::menu::state::RecordingView>,
) -> (ScreenStateView, Screen) {
    (
        ScreenStateView { recordings, ..s },
        Screen::Recorder { selected: min_usize(selected, recordings.len() as usize) },
    )
}

} // verus!
