//! The BLE advertiser's status, as the GAP events of the radio move it.

use vstd::prelude::*;

use crate::menu::labels::BleStatus;
use crate::runtime::types::opt_string_view;
use crate::text::push_str;

verus! {

/// Status of the advertiser and the last error it reported.
#[derive(Debug, Clone, PartialEq, Eq)]
pub struct BleState {
    pub status: BleStatus,
    pub last_error: Option<String>,
}

/// How the radio reported a GAP operation: success, or the failure status
/// as text.
#[derive(Debug, Clone, PartialEq, Eq)]
pub enum GapOutcome {
    Success,
    Failed(String),
}

/// The GAP events the advertiser follows.
#[derive(Debug, Clone, PartialEq, Eq)]
pub enum GapEvent {
    AdvertisingConfigured(GapOutcome),
    AdvertisingStarted(GapOutcome),
    AdvertisingStopped(GapOutcome),
    Other,
}

/// What the radio must do after an event.
#[derive(Debug, Clone, Copy, PartialEq, Eq, Structural)]
pub enum GapAction {
    Nothing,
    StartAdvertising,
}

impl BleState {
    /// The status right after the radio came up: ready, without error.
    pub fn new() -> (r: Self)
        ensures
            r.status == BleStatus::Ready,
            r.last_error is None,
    {
        BleState { status: BleStatus::Ready, last_error: None }
    }
}

/// Records a status and its error.
pub fn set_shared_status(state: &mut BleState, status: BleStatus, last_error: Option<String>)
    ensures
        final(state).status == status,
        opt_string_view(&final(state).last_error) == opt_string_view(&last_error),
{
    state.status = status;
    state.last_error = last_error;
}

fn failure(prefix: &str, detail: &String) -> (r: Option<String>)
    ensures
        opt_string_view(&r) == Some(prefix@ + detail@),
{
    let mut text = prefix.to_owned();
    push_str(&mut text, detail.as_str());
    Some(text)
}

/// The status after a GAP event, the error recorded, and whether
/// advertising must be started: a configuration that succeeded starts it;
/// a start that succeeded makes the advertiser advertise; a stop that
/// succeeded makes it ready; any failure is recorded with its status.
pub open spec fn gap_step(status: BleStatus, last_error: Option<Seq<char>>, event: GapEvent) -> (
    BleStatus,
    Option<Seq<char>>,
    GapAction,
) {
    match event {
        GapEvent::AdvertisingConfigured(GapOutcome::Success) => (
            status,
            last_error,
            GapAction::StartAdvertising,
        ),
        GapEvent::AdvertisingConfigured(GapOutcome::Failed(s)) => (
            BleStatus::Failed,
            Some("advertising config failed: "@ + s@),
            GapAction::Nothing,
        ),
        GapEvent::AdvertisingStarted(GapOutcome::Success) => (
            BleStatus::Advertising,
            None,
            GapAction::Nothing,
        ),
        GapEvent::AdvertisingStarted(GapOutcome::Failed(s)) => (
            BleStatus::Failed,
            Some("advertising start failed: "@ + s@),
            GapAction::Nothing,
        ),
        GapEvent::AdvertisingStopped(GapOutcome::Success) => (BleStatus::Ready, None, GapAction::Nothing),
        GapEvent::AdvertisingStopped(GapOutcome::Failed(s)) => (
            BleStatus::Failed,
            Some("advertising stop failed: "@ + s@),
            GapAction::Nothing,
        ),
        GapEvent::Other => (status, last_error, GapAction::Nothing),
    }
}

pub fn handle_gap_event(state: &mut BleState, event: &GapEvent) -> (r: GapAction)
    ensures
        (final(state).status, opt_string_view(&final(state).last_error), r) == gap_step(
            old(state).status,
            opt_string_view(&old(state).last_error),
            *event,
        ),
{
    match event {
        GapEvent::AdvertisingConfigured(GapOutcome::Success) => GapAction::StartAdvertising,
        GapEvent::AdvertisingConfigured(GapOutcome::Failed(s)) => {
            let e = failure("advertising config failed: ", s);
            set_shared_status(state, BleStatus::Failed, e);
            GapAction::Nothing
        },
        GapEvent::AdvertisingStarted(GapOutcome::Success) => {
            set_shared_status(state, BleStatus::Advertising, None);
            GapAction::Nothing
        },
        GapEvent::AdvertisingStarted(GapOutcome::Failed(s)) => {
            let e = failure("advertising start failed: ", s);
            set_shared_status(state, BleStatus::Failed, e);
            GapAction::Nothing
        },
        GapEvent::AdvertisingStopped(GapOutcome::Success) => {
            set_shared_status(state, BleStatus::Ready, None);
            GapAction::Nothing
        },
        GapEvent::AdvertisingStopped(GapOutcome::Failed(s)) => {
            let e = failure("advertising stop failed: ", s);
            set_shared_status(state, BleStatus::Failed, e);
            GapAction::Nothing
        },
        GapEvent::Other => GapAction::Nothing,
    }
}

/// After starting advertising failed with the radio's error text.
pub fn advertising_start_refused(state: &mut BleState, error: String)
    ensures
        final(state).status == BleStatus::Failed,
        opt_string_view(&final(state).last_error) == Some(error@),
{
    set_shared_status(state, BleStatus::Failed, Some(error));
}

/// Does stopping need the radio: only while advertising.
pub fn stop_needs_radio(state: &BleState) -> (r: bool)
    ensures
        r == (state.status == BleStatus::Advertising),
{
    state.status == BleStatus::Advertising
}

/// After advertising was configured or stopped by the firmware: ready,
/// without error.
pub fn mark_ready(state: &mut BleState)
    ensures
        final(state).status == BleStatus::Ready,
        final(state).last_error is None,
{
    set_shared_status(state, BleStatus::Ready, None);
}

/// Every failed GAP operation leaves the advertiser failed with an error,
/// and never asks for advertising.
pub proof fn law_gap_failures_recorded(
    status: BleStatus,
    last_error: Option<Seq<char>>,
    event: GapEvent,
)
    requires
        event matches GapEvent::AdvertisingConfigured(GapOutcome::Failed(_))
            || event matches GapEvent::AdvertisingStarted(GapOutcome::Failed(_))
            || event matches GapEvent::AdvertisingStopped(GapOutcome::Failed(_)),
    ensures
        gap_step(status, last_error, event).0 == BleStatus::Failed,
        gap_step(status, last_error, event).1 is Some,
        gap_step(status, last_error, event).2 == GapAction::Nothing,
{
}

} // verus!
