//! The menus' reaction to a key press, and to the answer of a call a key
//! press asked for. Each function is proved to do what `navigation` states.

use vstd::prelude::*;

use crate::board::InputEvent;
use crate::config::{clone_credential, credentials_view, AppConfig, WifiCredential};
use crate::menu::labels::{
    channel9_item_count, channel9_logged_in, channel9_login_blocked_reason, next_sntp_server,
    next_timezone_offset,
};
use crate::menu::navigation::{
    adjust_volume, begin_create, begin_poll, generated_device_id, is_back_or_select,
    is_down_or_right, is_up_or_left, min_usize, name_device, open_channel9, reduce_audio,
    reduce_config, reduce_storage, reduce_time, reduce_wifi, reduce_wifi_password,
    reduce_wifi_saved, reduce_wifi_scan, sat_sub, upsert, AUDIO_ITEM_COUNT, CONFIG_ITEM_COUNT,
    PASSWORD_MAX_BYTES, reduce_channel9, reduce_channel9_input, reduce_recorder, reduce,
    reduce_defined, screen_key, after_reload, after_scan, after_create, after_poll, CHANNEL9_INPUT_MAX_BYTES, STORAGE_ITEM_COUNT, TIME_ITEM_COUNT, WIFI_ITEM_COUNT,
};
use crate::menu::state::{
    effects_view, Channel9InputField, EffectView, NextView, RecordingItem,
    Screen, ScreenEffect, ScreenEnv, ScreenNext, ScreenState, ScreenStep, ScreenTask, StepView,
    recordings_view,
};
use crate::runtime::messages::{error_label_from_string, format_user_code};
use crate::runtime::types::{clone_strings, DeviceCode, PollToken};
use crate::text::{
    pop_char, push_char, push_hex_lower, push_str, str_eq, string_byte_len, trim_str,
};
use crate::wifi::{find_credential, networks_view, WifiNetwork};

verus! {

fn shown(screen: Screen) -> (r: ScreenStep)
    ensures
        r@ == (StepView { effects: Seq::empty(), next: NextView::Show(screen) }),
{
    let effects: Vec<ScreenEffect> = Vec::new();
    assert(effects_view(effects@) =~= Seq::<EffectView>::empty());
    ScreenStep { effects, next: ScreenNext::Show(screen) }
}

fn one_effect(effect: ScreenEffect) -> (r: Vec<ScreenEffect>)
    ensures
        effects_view(r@) == seq![effect@],
{
    let mut r: Vec<ScreenEffect> = Vec::new();
    r.push(effect);
    assert(effects_view(r@) =~= seq![effect@]);
    r
}

fn two_effects(first: ScreenEffect, second: ScreenEffect) -> (r: Vec<ScreenEffect>)
    ensures
        effects_view(r@) == seq![first@, second@],
{
    let mut r: Vec<ScreenEffect> = Vec::new();
    r.push(first);
    r.push(second);
    assert(effects_view(r@) =~= seq![first@, second@]);
    r
}

fn saved(screen: Screen) -> (r: ScreenStep)
    ensures
        r@ == (StepView { effects: seq![EffectView::SaveConfig], next: NextView::Show(screen) }),
{
    ScreenStep { effects: one_effect(ScreenEffect::SaveConfig), next: ScreenNext::Show(screen) }
}

fn up_index(selected: usize) -> (r: usize)
    ensures
        r == sat_sub(selected, 1),
{
    if selected >= 1 {
        selected - 1
    } else {
        0
    }
}

fn down_index(selected: usize, last: usize) -> (r: usize)
    requires
        selected < usize::MAX,
    ensures
        r == min_usize((selected + 1) as usize, last),
{
    if selected + 1 <= last {
        selected + 1
    } else {
        last
    }
}

fn last_index(len: usize) -> (r: usize)
    ensures
        r == sat_sub(len, 1),
{
    if len >= 1 {
        len - 1
    } else {
        0
    }
}

fn is_up_or_left_key(input: InputEvent) -> (r: bool)
    ensures
        r == is_up_or_left(input),
{
    matches!(input, InputEvent::Up | InputEvent::Left)
}

fn is_down_or_right_key(input: InputEvent) -> (r: bool)
    ensures
        r == is_down_or_right(input),
{
    matches!(input, InputEvent::Down | InputEvent::Right)
}

fn is_back_or_select_key(input: InputEvent) -> (r: bool)
    ensures
        r == is_back_or_select(input),
{
    matches!(input, InputEvent::Back | InputEvent::Select)
}

/// Gives an unnamed device its generated name.
fn name_device_exec(state: &mut ScreenState, random: u32) -> (effects: Vec<ScreenEffect>)
    ensures
        final(state)@ == name_device(old(state)@, random).0,
        effects_view(effects@) == name_device(old(state)@, random).1,
{
    let current = trim_str(state.config.channel9.device_id.as_str());
    proof {
        reveal_strlit("cardputer-adv");
        reveal_strlit("cardputer_");
    }
    if current.as_str().unicode_len() == 0 || str_eq(current.as_str(), "cardputer-adv") {
        let mut id = String::new();
        push_str(&mut id, "cardputer_");
        push_hex_lower(&mut id, random as u64, 8);
        assert(id@ == generated_device_id(random));
        state.config.channel9.device_id = id;
        one_effect(ScreenEffect::SaveConfig)
    } else {
        let effects: Vec<ScreenEffect> = Vec::new();
        assert(effects_view(effects@) =~= Seq::<EffectView>::empty());
        effects
    }
}

fn begin_create_exec(
    state: &mut ScreenState,
    effects: Vec<ScreenEffect>,
    env: ScreenEnv,
    return_to: Screen,
) -> (r: ScreenStep)
    ensures
        final(state)@ == begin_create(old(state)@, effects_view(effects@), env, return_to).0,
        r@ == begin_create(old(state)@, effects_view(effects@), env, return_to).1,
{
    match channel9_login_blocked_reason(&state.config, env.wifi_connected) {
        Some(reason) => {
            state.login.message = reason.to_owned();
            ScreenStep { effects, next: ScreenNext::Show(return_to) }
        },
        None => {
            state.login.message = String::new();
            let task = ScreenTask::CreateDeviceCode {
                device_id: state.config.channel9.device_id.clone(),
                description: state.config.channel9.description.clone(),
                interfaces: clone_strings(&state.config.channel9.interfaces),
                return_to,
            };
            ScreenStep { effects, next: ScreenNext::Await(task) }
        },
    }
}

fn begin_poll_exec(state: &mut ScreenState, env: ScreenEnv, return_to: Screen) -> (r: ScreenStep)
    ensures
        final(state)@ == begin_poll(old(state)@, env, return_to).0,
        r@ == begin_poll(old(state)@, env, return_to).1,
{
    if !env.wifi_connected {
        state.login.message = "WiFi offline".to_owned();
        return shown(return_to);
    }
    let task = match &state.login.active_code {
        None => None,
        Some(code) => Some(
            ScreenTask::PollDeviceToken {
                device_code: code.device_code.clone(),
                user_code: code.user_code.clone(),
                return_to,
            },
        ),
    };
    match task {
        None => {
            state.login.message = "Create code first".to_owned();
            shown(return_to)
        },
        Some(task) => {
            state.login.message = String::new();
            let effects: Vec<ScreenEffect> = Vec::new();
            assert(effects_view(effects@) =~= Seq::<EffectView>::empty());
            ScreenStep { effects, next: ScreenNext::Await(task) }
        },
    }
}

fn open_channel9_exec(state: &mut ScreenState, env: ScreenEnv) -> (r: ScreenStep)
    ensures
        final(state)@ == open_channel9(old(state)@, env).0,
        r@ == open_channel9(old(state)@, env).1,
{
    let effects = name_device_exec(state, env.random);
    ScreenStep { effects, next: ScreenNext::Show(Screen::Channel9 { selected: 0 }) }
}

fn reduce_config_exec(state: &mut ScreenState, env: ScreenEnv, selected: usize, input: InputEvent) -> (r:
    ScreenStep)
    requires
        is_down_or_right(input) ==> selected < usize::MAX,
    ensures
        final(state)@ == reduce_config(old(state)@, env, selected, input).0,
        r@ == reduce_config(old(state)@, env, selected, input).1,
{
    if input == InputEvent::Back {
        shown(Screen::Home)
    } else if is_up_or_left_key(input) {
        shown(
            Screen::Config {
                selected: if selected == 0 {
                    CONFIG_ITEM_COUNT - 1
                } else {
                    selected - 1
                },
            },
        )
    } else if is_down_or_right_key(input) {
        shown(Screen::Config { selected: (selected + 1) % CONFIG_ITEM_COUNT })
    } else if input == InputEvent::Select {
        if selected == 0 {
            shown(Screen::Wifi { selected: 0 })
        } else if selected == 1 {
            shown(Screen::Storage { selected: 0 })
        } else if selected == 2 {
            shown(Screen::Device)
        } else if selected == 3 {
            shown(Screen::Files)
        } else if selected == 4 {
            shown(Screen::Time { selected: 0 })
        } else if selected == 5 {
            shown(Screen::Audio { selected: 0 })
        } else if selected == 6 {
            open_channel9_exec(state, env)
        } else if selected == 7 {
            shown(Screen::Recorder { selected: 0 })
        } else {
            shown(Screen::Config { selected })
        }
    } else {
        shown(Screen::Config { selected })
    }
}

fn reduce_wifi_exec(state: &mut ScreenState, env: ScreenEnv, selected: usize, input: InputEvent) -> (r:
    ScreenStep)
    requires
        is_down_or_right(input) ==> selected < usize::MAX,
    ensures
        final(state)@ == reduce_wifi(old(state)@, env, selected, input).0,
        r@ == reduce_wifi(old(state)@, env, selected, input).1,
{
    if input == InputEvent::Back {
        shown(Screen::Config { selected: 0 })
    } else if is_up_or_left_key(input) {
        shown(Screen::Wifi { selected: up_index(selected) })
    } else if is_down_or_right_key(input) {
        shown(Screen::Wifi { selected: down_index(selected, WIFI_ITEM_COUNT - 1) })
    } else if input == InputEvent::Select {
        if selected == 4 {
            shown(Screen::Config { selected: 0 })
        } else if selected == 1 {
            shown(Screen::WifiResult)
        } else if selected == 2 {
            shown(Screen::WifiSaved { selected: 0 })
        } else if selected == 3 {
            state.scan_results = Vec::new();
            proof {
                assert(networks_view(state.scan_results@) =~= Seq::empty());
            }
            if env.wifi_available {
                let effects: Vec<ScreenEffect> = Vec::new();
                assert(effects_view(effects@) =~= Seq::<EffectView>::empty());
                ScreenStep { effects, next: ScreenNext::Await(ScreenTask::ScanWifi { selected }) }
            } else {
                shown(Screen::Wifi { selected })
            }
        } else if selected == 0 {
            state.config.wifi.connect_at_startup = !state.config.wifi.connect_at_startup;
            saved(Screen::Wifi { selected })
        } else {
            shown(Screen::Wifi { selected })
        }
    } else {
        shown(Screen::Wifi { selected })
    }
}

fn reduce_wifi_saved_exec(
    state: &mut ScreenState,
    env: ScreenEnv,
    selected: usize,
    input: InputEvent,
) -> (r: ScreenStep)
    requires
        is_down_or_right(input) ==> selected < usize::MAX,
    ensures
        final(state)@ == reduce_wifi_saved(old(state)@, env, selected, input).0,
        r@ == reduce_wifi_saved(old(state)@, env, selected, input).1,
{
    let n = state.config.wifi.credentials.len();
    if input == InputEvent::Back {
        shown(Screen::Wifi { selected: 2 })
    } else if is_up_or_left_key(input) {
        shown(Screen::WifiSaved { selected: up_index(selected) })
    } else if is_down_or_right_key(input) {
        shown(Screen::WifiSaved { selected: down_index(selected, last_index(n)) })
    } else if input == InputEvent::Backspace {
        if selected < n {
            let ghost old_creds = state.config.wifi.credentials@;
            state.config.wifi.credentials.remove(selected);
            proof {
                assert(credentials_view(state.config.wifi.credentials@) =~= credentials_view(
                    old_creds,
                ).remove(selected as int));
            }
            if state.config.wifi.credentials.len() == 0 {
                state.config.wifi.connect_at_startup = false;
            }
            let left = state.config.wifi.credentials.len();
            let next = if selected <= last_index(left) {
                selected
            } else {
                last_index(left)
            };
            saved(Screen::WifiSaved { selected: next })
        } else {
            let next = if selected <= last_index(n) {
                selected
            } else {
                last_index(n)
            };
            shown(Screen::WifiSaved { selected: next })
        }
    } else if input == InputEvent::Select {
        if env.wifi_available && selected < n {
            let credential = clone_credential(&state.config.wifi.credentials[selected]);
            let effects: Vec<ScreenEffect> = Vec::new();
            assert(effects_view(effects@) =~= Seq::<EffectView>::empty());
            ScreenStep { effects, next: ScreenNext::Await(ScreenTask::ConnectWifi { credential }) }
        } else {
            shown(Screen::WifiSaved { selected })
        }
    } else {
        shown(Screen::WifiSaved { selected })
    }
}

fn reduce_wifi_scan_exec(state: &mut ScreenState, selected: usize, input: InputEvent) -> (r:
    ScreenStep)
    requires
        is_down_or_right(input) ==> selected < usize::MAX,
    ensures
        final(state)@ == reduce_wifi_scan(old(state)@, selected, input).0,
        r@ == reduce_wifi_scan(old(state)@, selected, input).1,
{
    let n = state.scan_results.len();
    if input == InputEvent::Back {
        shown(Screen::Wifi { selected: 3 })
    } else if is_up_or_left_key(input) {
        shown(Screen::WifiScan { selected: up_index(selected) })
    } else if is_down_or_right_key(input) {
        shown(Screen::WifiScan { selected: down_index(selected, last_index(n)) })
    } else if input == InputEvent::Select {
        if n == 0 {
            shown(Screen::Wifi { selected: 3 })
        } else {
            state.password_input = String::new();
            let index = if selected <= n - 1 {
                selected
            } else {
                n - 1
            };
            shown(Screen::WifiPassword { network_index: index })
        }
    } else {
        shown(Screen::WifiScan { selected })
    }
}

/// Saves `credential`: it replaces the saved credential of the same network,
/// or is added at the end.
pub fn upsert_wifi_credential(config: &mut AppConfig, credential: WifiCredential)
    ensures
        final(config)@ == (crate::config::AppConfigView {
            wifi: crate::config::WifiConfigView {
                credentials: upsert(old(config)@.wifi.credentials, credential@),
                ..old(config)@.wifi
            },
            ..old(config)@
        }),
{
    match find_credential(&config.wifi, &credential.ssid) {
        Some(i) => {
            let ghost old_creds = config.wifi.credentials@;
            config.wifi.credentials.set(i, credential);
            proof {
                assert(credentials_view(config.wifi.credentials@) =~= credentials_view(
                    old_creds,
                ).update(i as int, credential@));
            }
        },
        None => {
            let ghost old_creds = config.wifi.credentials@;
            config.wifi.credentials.push(credential);
            proof {
                assert(credentials_view(config.wifi.credentials@) =~= credentials_view(
                    old_creds,
                ).push(credential@));
            }
        },
    }
}

fn reduce_wifi_password_exec(
    state: &mut ScreenState,
    env: ScreenEnv,
    network_index: usize,
    input: InputEvent,
) -> (r: ScreenStep)
    ensures
        final(state)@ == reduce_wifi_password(old(state)@, env, network_index, input).0,
        r@ == reduce_wifi_password(old(state)@, env, network_index, input).1,
{
    let here = Screen::WifiPassword { network_index };
    match input {
        InputEvent::Back => shown(Screen::WifiScan { selected: network_index }),
        InputEvent::Backspace => {
            pop_char(&mut state.password_input);
            shown(here)
        },
        InputEvent::Char(c) => {
            if string_byte_len(&state.password_input) < PASSWORD_MAX_BYTES {
                push_char(&mut state.password_input, c);
            }
            shown(here)
        },
        InputEvent::Select => {
            if env.wifi_available && network_index < state.scan_results.len() {
                proof {
                    assert(networks_view(state.scan_results@)[network_index as int]
                        == state.scan_results@[network_index as int]@);
                }
                let credential = WifiCredential {
                    ssid: state.scan_results[network_index].ssid.clone(),
                    password: state.password_input.clone(),
                };
                let task_credential = clone_credential(&credential);
                upsert_wifi_credential(&mut state.config, credential);
                state.config.wifi.connect_at_startup = true;
                state.password_input = String::new();
                ScreenStep {
                    effects: one_effect(ScreenEffect::SaveConfig),
                    next: ScreenNext::Await(ScreenTask::ConnectWifi { credential: task_credential }),
                }
            } else {
                shown(Screen::Wifi { selected: 2 })
            }
        },
        _ => shown(here),
    }
}

fn reduce_storage_exec(state: &mut ScreenState, env: ScreenEnv, selected: usize, input: InputEvent) -> (r:
    ScreenStep)
    requires
        is_down_or_right(input) ==> selected < usize::MAX,
    ensures
        final(state)@ == reduce_storage(old(state)@, env, selected, input).0,
        r@ == reduce_storage(old(state)@, env, selected, input).1,
{
    if input == InputEvent::Back {
        shown(Screen::Config { selected: 1 })
    } else if is_up_or_left_key(input) {
        shown(Screen::Storage { selected: up_index(selected) })
    } else if is_down_or_right_key(input) {
        shown(Screen::Storage { selected: down_index(selected, STORAGE_ITEM_COUNT - 1) })
    } else if input == InputEvent::Select {
        if selected == 0 {
            state.config.storage.prefer_sdcard = !state.config.storage.prefer_sdcard;
            saved(Screen::Storage { selected })
        } else if selected == 2 && env.sdcard_mounted {
            shown(Screen::Files)
        } else if selected == 3 {
            shown(Screen::Config { selected: 1 })
        } else {
            shown(Screen::Storage { selected })
        }
    } else {
        shown(Screen::Storage { selected })
    }
}

fn reduce_time_exec(state: &mut ScreenState, selected: usize, input: InputEvent) -> (r: ScreenStep)
    requires
        is_down_or_right(input) ==> selected < usize::MAX,
    ensures
        final(state)@ == reduce_time(old(state)@, selected, input).0,
        r@ == reduce_time(old(state)@, selected, input).1,
{
    let here = Screen::Time { selected };
    if input == InputEvent::Back {
        shown(Screen::Config { selected: 4 })
    } else if is_up_or_left_key(input) {
        shown(Screen::Time { selected: up_index(selected) })
    } else if is_down_or_right_key(input) {
        shown(Screen::Time { selected: down_index(selected, TIME_ITEM_COUNT - 1) })
    } else if input == InputEvent::Select {
        if selected == 0 {
            state.config.time.sync_at_startup = !state.config.time.sync_at_startup;
            ScreenStep {
                effects: two_effects(ScreenEffect::SaveConfig, ScreenEffect::StartTimeSync),
                next: ScreenNext::Show(here),
            }
        } else if selected == 1 {
            state.config.time.sntp_server = next_sntp_server(state.config.time.sntp_server.as_str());
            ScreenStep {
                effects: two_effects(ScreenEffect::SaveConfig, ScreenEffect::SyncTimeNow),
                next: ScreenNext::Show(here),
            }
        } else if selected == 2 {
            state.config.time.timezone_offset_minutes = next_timezone_offset(
                state.config.time.timezone_offset_minutes,
            );
            saved(here)
        } else if selected == 3 {
            ScreenStep {
                effects: one_effect(ScreenEffect::SyncTimeNow),
                next: ScreenNext::Show(here),
            }
        } else if selected == 4 {
            shown(Screen::Config { selected: 4 })
        } else {
            shown(here)
        }
    } else {
        shown(here)
    }
}

/// Steps the speaker volume by `delta` percent within 0..=100.
fn adjust_speaker_volume(state: &mut ScreenState, delta: i8) -> (effects: Vec<ScreenEffect>)
    ensures
        final(state)@ == adjust_volume(old(state)@, delta as int).0,
        effects_view(effects@) == adjust_volume(old(state)@, delta as int).1,
{
    let volume = state.config.audio.speaker_volume_percent;
    let current: i16 = if volume <= 100 {
        volume as i16
    } else {
        100
    };
    let sum: i16 = current + delta as i16;
    let next: u8 = if sum < 0 {
        0
    } else if sum > 100 {
        100
    } else {
        sum as u8
    };
    if next == volume {
        let effects: Vec<ScreenEffect> = Vec::new();
        assert(effects_view(effects@) =~= Seq::<EffectView>::empty());
        return effects;
    }
    state.config.audio.speaker_volume_percent = next;
    one_effect(ScreenEffect::ApplySpeakerVolume)
}

fn reduce_audio_exec(state: &mut ScreenState, selected: usize, input: InputEvent) -> (r: ScreenStep)
    requires
        input is Down ==> selected < usize::MAX,
    ensures
        final(state)@ == reduce_audio(old(state)@, selected, input).0,
        r@ == reduce_audio(old(state)@, selected, input).1,
{
    if input == InputEvent::Back {
        saved(Screen::Config { selected: 5 })
    } else if input == InputEvent::Up {
        shown(Screen::Audio { selected: up_index(selected) })
    } else if input == InputEvent::Down {
        shown(Screen::Audio { selected: down_index(selected, AUDIO_ITEM_COUNT - 1) })
    } else if selected == 0 && input == InputEvent::Left {
        let effects = adjust_speaker_volume(state, -5);
        ScreenStep { effects, next: ScreenNext::Show(Screen::Audio { selected: 0 }) }
    } else if selected == 0 && (input == InputEvent::Right || input == InputEvent::Select) {
        let effects = adjust_speaker_volume(state, 5);
        ScreenStep { effects, next: ScreenNext::Show(Screen::Audio { selected: 0 }) }
    } else if selected == 1 && input == InputEvent::Select {
        saved(Screen::Config { selected: 5 })
    } else {
        shown(Screen::Audio { selected })
    }
}

fn reduce_channel9_exec(
    state: &mut ScreenState,
    env: ScreenEnv,
    selected: usize,
    input: InputEvent,
) -> (r: ScreenStep)
    requires
        is_down_or_right(input) ==> selected < usize::MAX,
    ensures
        final(state)@ == reduce_channel9(old(state)@, env, selected, input).0,
        r@ == reduce_channel9(old(state)@, env, selected, input).1,
{
    let here = Screen::Channel9 { selected };
    if input == InputEvent::Back {
        shown(Screen::Config { selected: 6 })
    } else if is_up_or_left_key(input) {
        shown(Screen::Channel9 { selected: up_index(selected) })
    } else if is_down_or_right_key(input) {
        let rows = channel9_item_count(&state.config);
        shown(Screen::Channel9 { selected: down_index(selected, last_index(rows)) })
    } else if input == InputEvent::Select {
        if channel9_logged_in(&state.config) {
            if selected == 5 {
                state.config.channel9.access_token = None;
                state.config.channel9.token_expires_at = None;
                state.login.active_code = None;
                state.login.message = "Token cleared".to_owned();
                saved(Screen::Channel9 { selected: 0 })
            } else if selected == 6 {
                shown(Screen::Config { selected: 6 })
            } else {
                shown(here)
            }
        } else if selected == 0 && state.login.active_code.is_some() {
            begin_poll_exec(state, env, here)
        } else if selected == 0 {
            let effects: Vec<ScreenEffect> = Vec::new();
            assert(effects_view(effects@) =~= Seq::<EffectView>::empty());
            begin_create_exec(state, effects, env, here)
        } else if selected == 2 {
            begin_poll_exec(state, env, here)
        } else if selected == 1 {
            state.channel9_input = state.config.channel9.device_id.clone();
            shown(Screen::Channel9Input { field: Channel9InputField::Device })
        } else if selected == 3 {
            let effects: Vec<ScreenEffect> = Vec::new();
            assert(effects_view(effects@) =~= Seq::<EffectView>::empty());
            begin_create_exec(state, effects, env, here)
        } else if selected == 4 {
            shown(Screen::Config { selected: 6 })
        } else {
            shown(here)
        }
    } else {
        shown(here)
    }
}

fn reduce_channel9_input_exec(
    state: &mut ScreenState,
    field: Channel9InputField,
    input: InputEvent,
) -> (r: ScreenStep)
    ensures
        final(state)@ == reduce_channel9_input(old(state)@, field, input).0,
        r@ == reduce_channel9_input(old(state)@, field, input).1,
{
    let here = Screen::Channel9Input { field };
    match input {
        InputEvent::Back => shown(Screen::Channel9 { selected: 0 }),
        InputEvent::Backspace => {
            pop_char(&mut state.channel9_input);
            shown(here)
        },
        InputEvent::Char(c) => {
            if string_byte_len(&state.channel9_input) < CHANNEL9_INPUT_MAX_BYTES {
                push_char(&mut state.channel9_input, c);
            }
            shown(here)
        },
        InputEvent::Select => {
            match field {
                Channel9InputField::Device => {
                    state.config.channel9.device_id = trim_str(state.channel9_input.as_str());
                },
            }
            state.channel9_input = String::new();
            state.login.active_code = None;
            state.login.message = "Press Refresh".to_owned();
            saved(Screen::Channel9 { selected: 0 })
        },
        _ => shown(here),
    }
}

fn reduce_recorder_exec(state: &mut ScreenState, selected: usize, input: InputEvent) -> (r:
    ScreenStep)
    requires
        is_down_or_right(input) ==> selected < usize::MAX,
    ensures
        final(state)@ == reduce_recorder(old(state)@, selected, input).0,
        r@ == reduce_recorder(old(state)@, selected, input).1,
{
    let n = state.recordings.len();
    if input == InputEvent::Back {
        shown(Screen::Config { selected: 7 })
    } else if is_up_or_left_key(input) {
        shown(Screen::Recorder { selected: up_index(selected) })
    } else if is_down_or_right_key(input) {
        shown(Screen::Recorder { selected: down_index(selected, n) })
    } else if input == InputEvent::Backspace {
        if selected > 0 {
            let effects = if selected - 1 < n {
                proof {
                    assert(recordings_view(state.recordings@)[selected - 1]
                        == state.recordings@[selected - 1]@);
                }
                one_effect(ScreenEffect::DeleteVoiceNote(state.recordings[selected - 1].path.clone()))
            } else {
                let effects: Vec<ScreenEffect> = Vec::new();
                assert(effects_view(effects@) =~= Seq::<EffectView>::empty());
                effects
            };
            ScreenStep { effects, next: ScreenNext::Await(ScreenTask::ReloadRecordings { selected }) }
        } else {
            shown(Screen::Recorder { selected: 0 })
        }
    } else if input == InputEvent::Select {
        if selected == 0 {
            shown(Screen::Recording)
        } else if selected - 1 < n {
            proof {
                assert(recordings_view(state.recordings@)[selected - 1]
                    == state.recordings@[selected - 1]@);
            }
            ScreenStep {
                effects: one_effect(
                    ScreenEffect::PlayVoiceNote(state.recordings[selected - 1].path.clone()),
                ),
                next: ScreenNext::Show(Screen::Recorder { selected }),
            }
        } else {
            shown(Screen::Recorder { selected })
        }
    } else {
        shown(Screen::Recorder { selected })
    }
}

fn key_for_screen(screen: Screen, input: InputEvent) -> (r: InputEvent)
    ensures
        r == screen_key(screen, input),
{
    let edits = match screen {
        Screen::WifiSaved { .. } | Screen::WifiPassword { .. } | Screen::Channel9Input { .. }
        | Screen::Recorder { .. } => true,
        _ => false,
    };
    if input == InputEvent::Backspace && !edits {
        InputEvent::Back
    } else {
        input
    }
}

/// What a key press does on the screen shown: edits the screen data, and
/// returns the work to do and the next screen, or the call to make first.
pub fn reduce_screen(state: &mut ScreenState, env: ScreenEnv, screen: Screen, input: InputEvent) -> (r:
    ScreenStep)
    requires
        reduce_defined(screen, input),
    ensures
        final(state)@ == reduce(old(state)@, env, screen, input).0,
        r@ == reduce(old(state)@, env, screen, input).1,
{
    let input = key_for_screen(screen, input);
    match screen {
        Screen::Home => if input == InputEvent::Select {
            shown(Screen::Config { selected: 0 })
        } else {
            shown(screen)
        },
        Screen::Config { selected } => reduce_config_exec(state, env, selected, input),
        Screen::Wifi { selected } => reduce_wifi_exec(state, env, selected, input),
        Screen::WifiSaved { selected } => reduce_wifi_saved_exec(state, env, selected, input),
        Screen::WifiScan { selected } => reduce_wifi_scan_exec(state, selected, input),
        Screen::WifiPassword { network_index } => reduce_wifi_password_exec(
            state,
            env,
            network_index,
            input,
        ),
        Screen::WifiResult => if is_back_or_select_key(input) {
            shown(Screen::Wifi { selected: 1 })
        } else {
            shown(screen)
        },
        Screen::Storage { selected } => reduce_storage_exec(state, env, selected, input),
        Screen::Device => if is_back_or_select_key(input) {
            shown(Screen::Config { selected: 2 })
        } else {
            shown(screen)
        },
        Screen::Files => if is_back_or_select_key(input) {
            shown(Screen::Config { selected: 3 })
        } else {
            shown(screen)
        },
        Screen::Time { selected } => reduce_time_exec(state, selected, input),
        Screen::Audio { selected } => reduce_audio_exec(state, selected, input),
        Screen::Channel9 { selected } => reduce_channel9_exec(state, env, selected, input),
        Screen::Channel9Input { field } => reduce_channel9_input_exec(state, field, input),
        Screen::Recorder { selected } => reduce_recorder_exec(state, selected, input),
        Screen::Recording => shown(screen),
        Screen::RecorderMessage => if is_back_or_select_key(input) {
            shown(Screen::Recorder { selected: 0 })
        } else {
            shown(screen)
        },
    }
}

/// After a WiFi scan: `found` is the scan's networks, `None` when it failed.
pub fn after_wifi_scan(state: &mut ScreenState, selected: usize, found: Option<Vec<WifiNetwork>>) -> (r:
    Screen)
    ensures
        final(state)@ == after_scan(
            old(state)@,
            selected,
            match found {
                Some(v) => Some(networks_view(v@)),
                None => None,
            },
        ).0,
        r == after_scan(
            old(state)@,
            selected,
            match found {
                Some(v) => Some(networks_view(v@)),
                None => None,
            },
        ).1,
{
    match found {
        Some(networks) => {
            state.scan_results = networks;
            Screen::WifiScan { selected: 0 }
        },
        None => Screen::Wifi { selected },
    }
}

/// After joining a network: the time is synchronised when it worked; the
/// result screen follows either way.
pub fn after_wifi_connect(connected: bool) -> (r: ScreenStep)
    ensures
        r@ == (StepView {
            effects: if connected {
                seq![EffectView::SyncTimeNow]
            } else {
                Seq::empty()
            },
            next: NextView::Show(Screen::WifiResult),
        }),
{
    if connected {
        ScreenStep {
            effects: one_effect(ScreenEffect::SyncTimeNow),
            next: ScreenNext::Show(Screen::WifiResult),
        }
    } else {
        shown(Screen::WifiResult)
    }
}

/// After a device-code request: `result` is the code, or the error text.
pub fn after_device_code_created(
    state: &mut ScreenState,
    result: Result<DeviceCode, String>,
    return_to: Screen,
) -> (r: ScreenStep)
    ensures
        final(state)@ == after_create(
            old(state)@,
            match result {
                Ok(c) => Ok(c@),
                Err(e) => Err(e@),
            },
            return_to,
        ).0,
        r@ == after_create(
            old(state)@,
            match result {
                Ok(c) => Ok(c@),
                Err(e) => Err(e@),
            },
            return_to,
        ).1,
{
    match result {
        Ok(code) => {
            let user_code = format_user_code(code.user_code.as_str());
            let mut message = String::new();
            push_str(&mut message, "Code ");
            push_str(&mut message, user_code.as_str());
            proof {
                reveal_strlit("Code ");
            }
            state.login.message = message;
            state.login.active_code = Some(code);
            state.config.channel9.access_token = None;
            state.config.channel9.token_expires_at = None;
            saved(return_to)
        },
        Err(error) => {
            state.login.message = error_label_from_string("Create failed", error.as_str());
            shown(return_to)
        },
    }
}

/// After a token poll for the code shown as `user_code`: `result` is the
/// answer, or the error text.
pub fn after_token_polled(
    state: &mut ScreenState,
    user_code: &str,
    result: Result<PollToken, String>,
    return_to: Screen,
) -> (r: ScreenStep)
    ensures
        final(state)@ == after_poll(
            old(state)@,
            user_code@,
            match result {
                Ok(t) => Ok(t@),
                Err(e) => Err(e@),
            },
            return_to,
        ).0,
        r@ == after_poll(
            old(state)@,
            user_code@,
            match result {
                Ok(t) => Ok(t@),
                Err(e) => Err(e@),
            },
            return_to,
        ).1,
{
    match result {
        Ok(PollToken::Pending) => {
            let formatted = format_user_code(user_code);
            let mut message = String::new();
            push_str(&mut message, "Pending ");
            push_str(&mut message, formatted.as_str());
            proof {
                reveal_strlit("Pending ");
            }
            state.login.message = message;
            shown(return_to)
        },
        Ok(PollToken::Approved(token)) => {
            state.config.channel9.access_token = Some(token.access_token);
            state.config.channel9.token_expires_at = Some(token.expires_at);
            state.config.channel9.workspace_id = token.workspace_id;
            state.config.channel9.device_id = token.device_id;
            state.login.message = "Login saved".to_owned();
            state.login.active_code = None;
            saved(return_to)
        },
        Err(error) => {
            state.login.message = error_label_from_string("Poll failed", error.as_str());
            shown(return_to)
        },
    }
}

/// After the recordings were listed again: the list, and the recorder with
/// the selection kept within it.
pub fn after_recordings_loaded(
    state: &mut ScreenState,
    selected: usize,
    recordings: Vec<RecordingItem>,
) -> (r: Screen)
    ensures
        final(state)@ == after_reload(old(state)@, selected, recordings_view(recordings@)).0,
        r == after_reload(old(state)@, selected, recordings_view(recordings@)).1,
{
    let n = recordings.len();
    state.recordings = recordings;
    Screen::Recorder {
        selected: if selected <= n {
            selected
        } else {
            n
        },
    }
}

} // verus!
