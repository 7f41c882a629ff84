//! Properties of the menus that hold across key presses.

use vstd::prelude::*;

use crate::board::InputEvent;
use crate::menu::labels::config_logged_in;
use crate::menu::navigation::{
    after_create, after_poll, backspace_edits, is_down_or_right, is_up_or_left, reduce,
    stepped_volume, CONFIG_ITEM_COUNT, PASSWORD_MAX_BYTES, WIFI_ITEM_COUNT,
};
use crate::menu::state::{EffectView, NextView, Screen, ScreenEnv, ScreenStateView};
use crate::runtime::types::{DeviceCodeView, PollTokenView};
use crate::text::byte_len;

verus! {

/// Back on a screen opened from the configuration menu returns to the menu
/// with the row that opened it selected.
pub proof fn law_back_returns_to_opener(
    s: ScreenStateView,
    env: ScreenEnv,
    selected: usize,
    later: ScreenStateView,
    later_env: ScreenEnv,
)
    requires
        selected < CONFIG_ITEM_COUNT,
    ensures
        reduce(s, env, Screen::Config { selected }, InputEvent::Select).1.next matches NextView::Show(
            opened,
        ) ==> reduce(later, later_env, opened, InputEvent::Back).1.next == NextView::Show(
            Screen::Config { selected },
        ),
{
}

/// Opening the Channel9 screen from the configuration menu makes no request:
/// it shows the screen, and the only work it asks for is saving the
/// configuration when the device was given a name.
pub proof fn law_opening_channel9_makes_no_request(s: ScreenStateView, env: ScreenEnv)
    ensures
        reduce(s, env, Screen::Config { selected: 6 }, InputEvent::Select).1.next == NextView::Show(
            Screen::Channel9 { selected: 0 },
        ),
        forall|i: int|
            0 <= i < reduce(s, env, Screen::Config { selected: 6 }, InputEvent::Select).1.effects.len()
                ==> #[trigger] reduce(
                s,
                env,
                Screen::Config { selected: 6 },
                InputEvent::Select,
            ).1.effects[i] == EffectView::SaveConfig,
        reduce(s, env, Screen::Config { selected: 6 }, InputEvent::Select).0.login == s.login,
{
}

/// Backspace goes back: on every screen where it does not delete or erase,
/// it does what the Back key does.
pub proof fn law_backspace_goes_back(s: ScreenStateView, env: ScreenEnv, screen: Screen)
    requires
        !backspace_edits(screen),
    ensures
        reduce(s, env, screen, InputEvent::Backspace) == reduce(s, env, screen, InputEvent::Back),
{
}

/// Selecting "Prefer SD" on the storage screen flips the setting and saves
/// it: once, `prefer_sdcard` becomes its opposite and nothing else in the
/// configuration changes; twice, the configuration is back as it was.
pub proof fn law_prefer_sd_toggles(s: ScreenStateView, env: ScreenEnv)
    ensures
        ({
            let (once, step) = reduce(s, env, Screen::Storage { selected: 0 }, InputEvent::Select);
            let (twice, _) = reduce(once, env, Screen::Storage { selected: 0 }, InputEvent::Select);
            &&& once.config.storage.prefer_sdcard == !s.config.storage.prefer_sdcard
            &&& once.config.storage.sdcard_mount_path == s.config.storage.sdcard_mount_path
            &&& once.config.storage.sdcard_pins == s.config.storage.sdcard_pins
            &&& once.config.wifi == s.config.wifi
            &&& once.config.time == s.config.time
            &&& once.config.audio == s.config.audio
            &&& once.config.channel9 == s.config.channel9
            &&& once.config.device == s.config.device
            &&& step.effects == seq![EffectView::SaveConfig]
            &&& step.next == NextView::Show(Screen::Storage { selected: 0 })
            &&& twice.config == s.config
        }),
{
}

/// Up then Down, or Down then Up, in the configuration menu comes back to
/// the same row.
pub proof fn law_config_up_down_inverse(s: ScreenStateView, env: ScreenEnv, selected: usize)
    requires
        selected < CONFIG_ITEM_COUNT,
    ensures
        ({
            let (s1, up) = reduce(s, env, Screen::Config { selected }, InputEvent::Up);
            up.next matches NextView::Show(after_up) && reduce(
                s1,
                env,
                after_up,
                InputEvent::Down,
            ).1.next == NextView::Show(Screen::Config { selected })
        }),
        ({
            let (s1, down) = reduce(s, env, Screen::Config { selected }, InputEvent::Down);
            down.next matches NextView::Show(after_down) && reduce(
                s1,
                env,
                after_down,
                InputEvent::Up,
            ).1.next == NextView::Show(Screen::Config { selected })
        }),
{
}

/// Arrow keys keep the selection of the WiFi menu on one of its rows, and
/// keep the data and ask for no work.
pub proof fn law_wifi_selection_in_range(
    s: ScreenStateView,
    env: ScreenEnv,
    selected: usize,
    input: InputEvent,
)
    requires
        selected < WIFI_ITEM_COUNT,
        is_up_or_left(input) || is_down_or_right(input),
    ensures
        reduce(s, env, Screen::Wifi { selected }, input).1.next matches NextView::Show(
            Screen::Wifi { selected: next },
        ) && next < WIFI_ITEM_COUNT,
        reduce(s, env, Screen::Wifi { selected }, input).0 == s,
        reduce(s, env, Screen::Wifi { selected }, input).1.effects.len() == 0,
{
}

/// Arrow keys on the saved-network list keep a valid row selected.
pub proof fn law_saved_selection_in_range(
    s: ScreenStateView,
    env: ScreenEnv,
    selected: usize,
    input: InputEvent,
)
    requires
        selected < s.config.wifi.credentials.len(),
        is_up_or_left(input) || is_down_or_right(input),
    ensures
        reduce(s, env, Screen::WifiSaved { selected }, input).1.next matches NextView::Show(
            Screen::WifiSaved { selected: next },
        ) && next < s.config.wifi.credentials.len(),
{
}

/// The recorder's selection stays between the record row and the last
/// recording.
pub proof fn law_recorder_selection_in_range(
    s: ScreenStateView,
    env: ScreenEnv,
    selected: usize,
    input: InputEvent,
)
    requires
        selected <= s.recordings.len(),
        is_up_or_left(input) || is_down_or_right(input),
        s.recordings.len() < usize::MAX,
    ensures
        reduce(s, env, Screen::Recorder { selected }, input).1.next matches NextView::Show(
            Screen::Recorder { selected: next },
        ) && next <= s.recordings.len(),
{
}

/// The speaker volume stays within 0..=100.
pub proof fn law_volume_in_range(volume: u8, delta: int)
    ensures
        stepped_volume(volume, delta) <= 100,
{
}

/// A step down undoes a step up of the same size while the volume stays in
/// range.
pub proof fn law_volume_step_undone(volume: u8)
    requires
        volume <= 95,
    ensures
        stepped_volume(stepped_volume(volume, 5), -5) == volume,
{
}

/// Typing a character into the WiFi password and erasing it gives back the
/// password, when the password had room for it.
pub proof fn law_password_type_then_erase(s: ScreenStateView, env: ScreenEnv, index: usize, c: char)
    requires
        (byte_len(s.password_input) as usize) < PASSWORD_MAX_BYTES,
    ensures
        ({
            let (typed, _) = reduce(s, env, Screen::WifiPassword { network_index: index }, InputEvent::Char(c));
            reduce(typed, env, Screen::WifiPassword { network_index: index }, InputEvent::Backspace).0
                == s
        }),
{
    let (typed, _) = reduce(s, env, Screen::WifiPassword { network_index: index }, InputEvent::Char(c));
    assert(typed.password_input.drop_last() =~= s.password_input);
}

/// An approved token logs the menu in and drops the code shown; the token,
/// its expiry, the workspace and the device id it names are kept in the
/// configuration, which is saved.
pub proof fn law_menu_approval_logs_in(
    s: ScreenStateView,
    user_code: Seq<char>,
    token: crate::runtime::types::DeviceTokenView,
    return_to: Screen,
)
    ensures
        ({
            let (after, step) = after_poll(s, user_code, Ok(PollTokenView::Approved(token)), return_to);
            &&& config_logged_in(after.config)
            &&& after.login.active_code is None
            &&& after.config.channel9.access_token == Some(token.access_token)
            &&& after.config.channel9.token_expires_at == Some(token.expires_at)
            &&& after.config.channel9.workspace_id == token.workspace_id
            &&& after.config.channel9.device_id == token.device_id
            &&& step.effects == seq![EffectView::SaveConfig]
            &&& step.next == NextView::Show(return_to)
        }),
{
}

/// Clearing the login on the Channel9 screen logs the device out: the token
/// and its expiry are removed and saved, no code is shown, and the screen
/// goes back to its first row.
pub proof fn law_menu_clear_logs_out(s: ScreenStateView, env: ScreenEnv)
    requires
        config_logged_in(s.config),
    ensures
        ({
            let (after, step) = reduce(s, env, Screen::Channel9 { selected: 5 }, InputEvent::Select);
            &&& !config_logged_in(after.config)
            &&& after.config.channel9.token_expires_at is None
            &&& after.login.active_code is None
            &&& step.effects == seq![EffectView::SaveConfig]
            &&& step.next == NextView::Show(Screen::Channel9 { selected: 0 })
        }),
{
}

/// A new device code logs the menu out and becomes the code shown.
pub proof fn law_menu_new_code_logs_out(s: ScreenStateView, code: DeviceCodeView, return_to: Screen)
    ensures
        !config_logged_in(after_create(s, Ok(code), return_to).0.config),
        after_create(s, Ok(code), return_to).0.login.active_code == Some(code),
{
}

} // verus!
