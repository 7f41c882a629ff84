//! The recorder's messages, and the radios paused while a voice note is
//! recorded.

use vstd::prelude::*;

use crate::board::InputEvent;
use crate::config::{clone_credential, CredentialView, WifiConfig, WifiCredential};
use crate::menu::labels::{file_name, file_name_of};
use crate::menu::navigation::screen_key;
use crate::menu::state::Screen;
use crate::runtime::types::opt_string_view;
use crate::text::{add_piece, capped_push, capped_write, pieces_view, push_capped, write_capped};
use crate::wifi::{credential_index_from, find_credential};

verus! {

/// Does a key stop the recording under way: Back (or Backspace, which goes
/// back there) and Select do.
pub fn stops_recording(input: InputEvent) -> (r: bool)
    ensures
        r == (screen_key(Screen::Recording, input) is Back || screen_key(Screen::Recording, input) is Select),
        r == (input is Back || input is Backspace || input is Select),
{
    match input {
        InputEvent::Back | InputEvent::Backspace | InputEvent::Select => true,
        _ => false,
    }
}

/// The message after a recording was stopped: the file saved, that none was
/// active, or the error text; written into a 64-byte buffer, the error text
/// being one piece.
pub open spec fn stop_message(result: Result<Option<Seq<char>>, Seq<char>>) -> Seq<char> {
    match result {
        Ok(Some(path)) => capped_write(Seq::empty(), seq!["Saved "@, file_name_of(path)], 64),
        Ok(None) => capped_push(Seq::empty(), "No active recording"@, 64),
        Err(e) => capped_write(Seq::empty(), seq!["Stop failed: "@, e], 64),
    }
}

pub fn recorder_stop_message(result: &Result<Option<String>, String>) -> (r: String)
    ensures
        r@ == stop_message(
            match result {
                Ok(Some(p)) => Ok(Some(p@)),
                Ok(None) => Ok(None),
                Err(e) => Err(e@),
            },
        ),
{
    let mut message = String::new();
    match result {
        Ok(Some(path)) => {
            let name = file_name(path.as_str());
            let mut pieces: Vec<String> = Vec::new();
            let ghost none = pieces_view(pieces@);
            add_piece(&mut pieces, "Saved ");
            add_piece(&mut pieces, name.as_str());
            assert(pieces_view(pieces@) =~= seq!["Saved "@, name@]);
            write_capped(&mut message, &pieces, 64);
        },
        Ok(None) => {
            push_capped(&mut message, "No active recording", 64);
        },
        Err(e) => {
            let mut pieces: Vec<String> = Vec::new();
            let ghost none = pieces_view(pieces@);
            add_piece(&mut pieces, "Stop failed: ");
            add_piece(&mut pieces, e.as_str());
            assert(pieces_view(pieces@) =~= seq!["Stop failed: "@, e@]);
            write_capped(&mut message, &pieces, 64);
        },
    }
    message
}

/// The message when recording could not start or failed while running,
/// written into a 64-byte buffer, the error text being one piece.
pub fn recorder_failure_message(detail: &str) -> (r: String)
    ensures
        r@ == capped_write(Seq::empty(), seq!["Record failed: "@, detail@], 64),
{
    let mut pieces: Vec<String> = Vec::new();
    let ghost none = pieces_view(pieces@);
    add_piece(&mut pieces, "Record failed: ");
    add_piece(&mut pieces, detail);
    assert(pieces_view(pieces@) =~= seq!["Record failed: "@, detail@]);
    let mut message = String::new();
    write_capped(&mut message, &pieces, 64);
    message
}

/// What was running before the radios were paused for a recording.
#[derive(Debug, Clone, PartialEq, Eq)]
pub struct PausedRadios {
    pub wifi_was_connected: bool,
    pub wifi_ssid: Option<String>,
    pub ble_was_advertising: bool,
}

impl PausedRadios {
    /// Nothing paused.
    pub fn none() -> (r: Self)
        ensures
            !r.wifi_was_connected,
            r.wifi_ssid is None,
            !r.ble_was_advertising,
    {
        PausedRadios { wifi_was_connected: false, wifi_ssid: None, ble_was_advertising: false }
    }

    /// What to resume, given what ran and whether stopping each radio
    /// worked: a radio that did not stop is not resumed.
    pub fn paused(
        wifi_connected: bool,
        wifi_ssid: Option<String>,
        wifi_stopped: bool,
        ble_advertising: bool,
        ble_stopped: bool,
    ) -> (r: Self)
        ensures
            r.wifi_was_connected == (wifi_connected && wifi_stopped),
            opt_string_view(&r.wifi_ssid) == opt_string_view(&wifi_ssid),
            r.ble_was_advertising == (ble_advertising && ble_stopped),
    {
        PausedRadios {
            wifi_was_connected: wifi_connected && wifi_stopped,
            wifi_ssid,
            ble_was_advertising: ble_advertising && ble_stopped,
        }
    }
}

/// The network to rejoin after a recording: the saved credential of the
/// network joined before, or `None` to join the first saved network seen.
pub open spec fn rejoin_target(creds: Seq<CredentialView>, paused_ssid: Option<Seq<char>>) -> Option<
    CredentialView,
> {
    match paused_ssid {
        Some(ssid) => match credential_index_from(creds, ssid, 0) {
            Some(i) => Some(creds[i]),
            None => None,
        },
        None => None,
    }
}

pub fn reconnect_target(config: &WifiConfig, paused: &PausedRadios) -> (r: Option<WifiCredential>)
    ensures
        match r {
            Some(c) => Some(c@),
            None => None,
        } == rejoin_target(config@.credentials, opt_string_view(&paused.wifi_ssid)),
{
    match &paused.wifi_ssid {
        Some(ssid) => match find_credential(config, ssid) {
            Some(i) => {
                assert(config@.credentials[i as int] == config.credentials@[i as int]@);
                Some(clone_credential(&config.credentials[i]))
            },
            None => None,
        },
        None => None,
    }
}

} // verus!
