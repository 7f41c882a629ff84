//! The SNTP time sync: when it starts, how its status follows the SNTP
//! client, and when it gives up.

use vstd::prelude::*;

use crate::config::{TimeConfig};
use crate::menu::labels::TimeSyncStatus;
use crate::runtime::types::opt_string_view;

verus! {

/// How long a sync may run before it is given up, in milliseconds.
pub const SNTP_SYNC_TIMEOUT_MS: u64 = 20000;

/// What the SNTP client reports.
#[derive(Debug, Clone, Copy, PartialEq, Eq, Structural)]
pub enum SntpSync {
    Reset,
    InProgress,
    Completed,
}

/// What the firmware must do with the SNTP client.
#[derive(Debug, Clone, PartialEq, Eq)]
pub enum TimeAction {
    /// Stop the client, if one runs.
    Stop,
    /// Stop the client, if one runs, and start one against `server`.
    StartSync { server: String },
}

/// The sync's state: its status, when the running sync began (monotonic
/// milliseconds), the last error, and whether a client runs.
#[derive(Debug, Clone, PartialEq, Eq)]
pub struct TimeState {
    pub status: TimeSyncStatus,
    pub sync_started_at_ms: Option<u64>,
    pub last_error: Option<String>,
    pub sntp_running: bool,
}

pub struct TimeStateView {
    pub status: TimeSyncStatus,
    pub sync_started_at_ms: Option<u64>,
    pub last_error: Option<Seq<char>>,
    pub sntp_running: bool,
}

impl View for TimeState {
    type V = TimeStateView;

    open spec fn view(&self) -> TimeStateView {
        TimeStateView {
            status: self.status,
            sync_started_at_ms: self.sync_started_at_ms,
            last_error: opt_string_view(&self.last_error),
            sntp_running: self.sntp_running,
        }
    }
}

/// The server an action starts a sync against.
pub open spec fn synced_against(a: TimeAction) -> Option<Seq<char>> {
    match a {
        TimeAction::StartSync { server } => Some(server@),
        TimeAction::Stop => None,
    }
}

/// Has a sync begun at `started` run out of time at `now` (a clock that
/// went back counts as no time passed).
pub open spec fn timed_out(started: u64, now_ms: u64) -> bool {
    now_ms >= started && now_ms - started >= SNTP_SYNC_TIMEOUT_MS
}

/// The state after the SNTP client reported `sync` (`None` when none runs)
/// at `now_ms`: a completed sync is synced and clears the error; a sync
/// that ran too long is stopped and failed.
pub open spec fn observed(s: TimeStateView, sync: Option<SntpSync>, now_ms: u64) -> TimeStateView {
    let polled = match sync {
        Some(SntpSync::Completed) => TimeStateView {
            status: TimeSyncStatus::Synced,
            sync_started_at_ms: None,
            last_error: None,
            ..s
        },
        Some(_) => TimeStateView { status: TimeSyncStatus::InProgress, ..s },
        None => s,
    };
    let expired = match polled.sync_started_at_ms {
        Some(t) => timed_out(t, now_ms),
        None => false,
    };
    if polled.status == TimeSyncStatus::InProgress && expired {
        TimeStateView {
            status: TimeSyncStatus::Failed,
            sync_started_at_ms: None,
            last_error: Some("sntp sync timeout"@),
            sntp_running: false,
        }
    } else {
        polled
    }
}

impl TimeState {
    /// No sync yet.
    pub fn new() -> (r: Self)
        ensures
            r@ == (TimeStateView {
                status: TimeSyncStatus::Idle,
                sync_started_at_ms: None,
                last_error: None,
                sntp_running: false,
            }),
    {
        TimeState {
            status: TimeSyncStatus::Idle,
            sync_started_at_ms: None,
            last_error: None,
            sntp_running: false,
        }
    }

    /// Applies the time settings at startup: with sync off the client is
    /// stopped and the status is disabled; otherwise a sync starts.
    pub fn start(&mut self, config: &TimeConfig) -> (r: TimeAction)
        ensures
            !config.sync_at_startup ==> r == TimeAction::Stop && final(self)@ == (TimeStateView {
                status: TimeSyncStatus::Disabled,
                sync_started_at_ms: None,
                last_error: None,
                sntp_running: false,
            }),
            config.sync_at_startup ==> synced_against(r) == Some(config.sntp_server@)
                && final(self)@ == (TimeStateView { sntp_running: false, ..old(self)@ }),
    {
        if !config.sync_at_startup {
            self.sntp_running = false;
            self.status = TimeSyncStatus::Disabled;
            self.sync_started_at_ms = None;
            self.last_error = None;
            return TimeAction::Stop;
        }
        self.sync_now(config)
    }

    /// Starts a sync against the configured server now.
    pub fn sync_now(&mut self, config: &TimeConfig) -> (r: TimeAction)
        ensures
            synced_against(r) == Some(config.sntp_server@),
            final(self)@ == (TimeStateView { sntp_running: false, ..old(self)@ }),
    {
        self.sntp_running = false;
        TimeAction::StartSync { server: config.sntp_server.clone() }
    }

    /// The client started at `now_ms`: the sync is in progress.
    pub fn sync_started(&mut self, now_ms: u64)
        ensures
            final(self)@ == (TimeStateView {
                status: TimeSyncStatus::InProgress,
                sync_started_at_ms: Some(now_ms),
                last_error: None,
                sntp_running: true,
            }),
    {
        self.sntp_running = true;
        self.status = TimeSyncStatus::InProgress;
        self.sync_started_at_ms = Some(now_ms);
        self.last_error = None;
    }

    /// The client could not start: the sync failed.
    pub fn sync_failed(&mut self)
        ensures
            final(self)@ == (TimeStateView {
                status: TimeSyncStatus::Failed,
                sync_started_at_ms: None,
                last_error: Some("failed to start sntp"@),
                sntp_running: false,
            }),
    {
        self.sntp_running = false;
        self.status = TimeSyncStatus::Failed;
        self.sync_started_at_ms = None;
        self.last_error = Some("failed to start sntp".to_owned());
    }

    /// Follows the client's report at `now_ms` and returns the status;
    /// `sync` is `None` when no client runs.
    pub fn status(&mut self, sync: Option<SntpSync>, now_ms: u64) -> (r: TimeSyncStatus)
        ensures
            final(self)@ == observed(old(self)@, sync, now_ms),
            r == final(self)@.status,
    {
        match sync {
            Some(SntpSync::Completed) => {
                self.status = TimeSyncStatus::Synced;
                self.sync_started_at_ms = None;
                self.last_error = None;
            },
            Some(_) => {
                self.status = TimeSyncStatus::InProgress;
            },
            None => {},
        }
        if self.status == TimeSyncStatus::InProgress {
            if let Some(started) = self.sync_started_at_ms {
                if now_ms >= started && now_ms - started >= SNTP_SYNC_TIMEOUT_MS {
                    self.sntp_running = false;
                    self.sync_started_at_ms = None;
                    self.status = TimeSyncStatus::Failed;
                    self.last_error = Some("sntp sync timeout".to_owned());
                }
            }
        }
        self.status
    }

    /// The last error, if any.
    pub fn last_error(&self) -> (r: Option<&str>)
        ensures
            match r {
                Some(e) => Some(e@),
                None => None::<Seq<char>>,
            } == opt_string_view(&self.last_error),
    {
        match &self.last_error {
            Some(e) => Some(e.as_str()),
            None => None,
        }
    }
}

/// A completed sync is synced, with no error, whatever it was before.
pub proof fn law_completed_sync(s: TimeStateView, now_ms: u64)
    ensures
        observed(s, Some(SntpSync::Completed), now_ms).status == TimeSyncStatus::Synced,
        observed(s, Some(SntpSync::Completed), now_ms).last_error is None,
{
}

/// A sync still running 20 s after it began is given up: failed, with the
/// client stopped and a timeout error.
pub proof fn law_sync_times_out(s: TimeStateView, sync: SntpSync, now_ms: u64)
    requires
        sync != SntpSync::Completed,
        s.sync_started_at_ms matches Some(t) && timed_out(t, now_ms),
    ensures
        observed(s, Some(sync), now_ms) == (TimeStateView {
            status: TimeSyncStatus::Failed,
            sync_started_at_ms: None,
            last_error: Some("sntp sync timeout"@),
            sntp_running: false,
        }),
{
}

/// Without a running client, a status that is not a sync in progress stays
/// as it is.
pub proof fn law_settled_status_kept(s: TimeStateView, now_ms: u64)
    requires
        s.status != TimeSyncStatus::InProgress,
    ensures
        observed(s, None, now_ms) == s,
{
}

} // verus!
