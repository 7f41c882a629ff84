//! WiFi networks and the choices made before connecting: which saved network
//! to try first and which authentication to ask for.

use vstd::prelude::*;

use crate::config::{clone_credential, CredentialView, WifiConfig, WifiCredential};

verus! {

/// Authentication of an access point, as the WiFi driver reports it.
#[derive(Debug, Clone, Copy, PartialEq, Eq, Structural)]
pub enum WifiAuthMethod {
    NoAuth,
    WEP,
    WPA,
    WPA2Personal,
    WPAWPA2Personal,
    WPA2Enterprise,
    WPA3Personal,
    WPA2WPA3Personal,
    WAPIPersonal,
}

/// An access point found by a scan.
#[derive(Debug, Clone, PartialEq, Eq)]
pub struct WifiNetwork {
    pub ssid: String,
    pub channel: u8,
    pub signal_dbm: i8,
    pub auth_method: Option<WifiAuthMethod>,
}

pub struct WifiNetworkView {
    pub ssid: Seq<char>,
    pub channel: u8,
    pub signal_dbm: i8,
    pub auth_method: Option<WifiAuthMethod>,
}

impl View for WifiNetwork {
    type V = WifiNetworkView;

    open spec fn view(&self) -> WifiNetworkView {
        WifiNetworkView {
            ssid: self.ssid@,
            channel: self.channel,
            signal_dbm: self.signal_dbm,
            auth_method: self.auth_method,
        }
    }
}

pub open spec fn networks_view(v: Seq<WifiNetwork>) -> Seq<WifiNetworkView> {
    v.map_values(|n: WifiNetwork| n@)
}

/// Addresses of the current connection.
#[derive(Debug, Clone, PartialEq, Eq)]
pub struct WifiConnectionInfo {
    pub ssid: String,
    pub ip: String,
    pub gateway: String,
    pub dns_primary: String,
    pub dns_secondary: String,
}

pub struct ConnectionInfoView {
    pub ssid: Seq<char>,
    pub ip: Seq<char>,
    pub gateway: Seq<char>,
    pub dns_primary: Seq<char>,
    pub dns_secondary: Seq<char>,
}

impl View for WifiConnectionInfo {
    type V = ConnectionInfoView;

    open spec fn view(&self) -> ConnectionInfoView {
        ConnectionInfoView {
            ssid: self.ssid@,
            ip: self.ip@,
            gateway: self.gateway@,
            dns_primary: self.dns_primary@,
            dns_secondary: self.dns_secondary@,
        }
    }
}

/// State of the WiFi station.
#[derive(Debug, Clone, Copy, PartialEq, Eq, Structural)]
pub enum WifiStatus {
    Disabled,
    Idle,
    Started,
    Connected,
    Failed,
}

/// A saved network to join, with what a scan told about it.
#[derive(Debug, Clone)]
pub struct WifiConnectTarget {
    pub credential: WifiCredential,
    pub auth_method: Option<WifiAuthMethod>,
    pub channel: Option<u8>,
}

pub struct ConnectTargetView {
    pub credential: CredentialView,
    pub auth_method: Option<WifiAuthMethod>,
    pub channel: Option<u8>,
}

impl View for WifiConnectTarget {
    type V = ConnectTargetView;

    open spec fn view(&self) -> ConnectTargetView {
        ConnectTargetView {
            credential: self.credential@,
            auth_method: self.auth_method,
            channel: self.channel,
        }
    }
}

pub open spec fn targets_view(v: Seq<WifiConnectTarget>) -> Seq<ConnectTargetView> {
    v.map_values(|t: WifiConnectTarget| t@)
}

impl WifiConnectTarget {
    /// A saved network to join without scan hints.
    pub fn without_hint(credential: WifiCredential) -> (r: Self)
        ensures
            r@ == (ConnectTargetView { credential: credential@, auth_method: None, channel: None }),
    {
        WifiConnectTarget { credential, auth_method: None, channel: None }
    }
}

/// The authentication to ask for: none for an empty password; otherwise the
/// scanned method, with WPA2 Personal when the scan reported none or an open
/// network.
pub open spec fn auth_for(password: Seq<char>, scanned: Option<WifiAuthMethod>) -> WifiAuthMethod {
    if password.len() == 0 {
        WifiAuthMethod::NoAuth
    } else {
        match scanned {
            Some(WifiAuthMethod::NoAuth) | None => WifiAuthMethod::WPA2Personal,
            Some(m) => m,
        }
    }
}

pub fn select_auth_method(credential: &WifiCredential, auth_method: Option<WifiAuthMethod>) -> (r:
    WifiAuthMethod)
    ensures
        r == auth_for(credential.password@, auth_method),
{
    if credential.password.as_str().unicode_len() == 0 {
        return WifiAuthMethod::NoAuth;
    }
    match auth_method {
        Some(WifiAuthMethod::NoAuth) | None => WifiAuthMethod::WPA2Personal,
        Some(m) => m,
    }
}

/// Index of the first credential for `ssid`, if any.
pub open spec fn credential_index_from(creds: Seq<CredentialView>, ssid: Seq<char>, i: int) -> Option<
    int,
>
    decreases creds.len() - i,
{
    if i < 0 || i >= creds.len() {
        None
    } else if creds[i].ssid == ssid {
        Some(i)
    } else {
        credential_index_from(creds, ssid, i + 1)
    }
}

pub open spec fn has_target(targets: Seq<ConnectTargetView>, ssid: Seq<char>) -> bool {
    exists|k: int| 0 <= k < targets.len() && targets[k].credential.ssid == ssid
}

/// The saved networks seen by a scan, strongest first as scanned, each once,
/// with the scan's authentication and channel as hints.
pub open spec fn scan_order_targets(networks: Seq<WifiNetworkView>, creds: Seq<CredentialView>) -> Seq<
    ConnectTargetView,
>
    decreases networks.len(),
{
    if networks.len() == 0 {
        Seq::empty()
    } else {
        let earlier = scan_order_targets(networks.drop_last(), creds);
        let net = networks.last();
        if has_target(earlier, net.ssid) {
            earlier
        } else {
            match credential_index_from(creds, net.ssid, 0) {
                Some(i) => earlier.push(
                    ConnectTargetView {
                        credential: creds[i],
                        auth_method: net.auth_method,
                        channel: Some(net.channel),
                    },
                ),
                None => earlier,
            }
        }
    }
}

pub(crate) fn find_credential(config: &WifiConfig, ssid: &String) -> (r: Option<usize>)
    ensures
        match r {
            Some(i) => Some(i as int),
            None => None::<int>,
        } == credential_index_from(config@.credentials, ssid@, 0),
        r is Some ==> r->0 < config.credentials@.len(),
{
    let mut i: usize = 0;
    while i < config.credentials.len()
        invariant
            i <= config.credentials.len(),
            credential_index_from(config@.credentials, ssid@, 0) == credential_index_from(
                config@.credentials,
                ssid@,
                i as int,
            ),
        decreases config.credentials.len() - i,
    {
        assert(config@.credentials[i as int] == config.credentials@[i as int]@);
        if config.credentials[i].ssid == *ssid {
            return Some(i);
        }
        i += 1;
    }
    None
}

fn targets_contain(targets: &Vec<WifiConnectTarget>, ssid: &String) -> (r: bool)
    ensures
        r == has_target(targets_view(targets@), ssid@),
{
    let mut i: usize = 0;
    while i < targets.len()
        invariant
            i <= targets.len(),
            forall|k: int| 0 <= k < i ==> targets_view(targets@)[k].credential.ssid != ssid@,
        decreases targets.len() - i,
    {
        assert(targets_view(targets@)[i as int] == targets@[i as int]@);
        if targets[i].credential.ssid == *ssid {
            return true;
        }
        i += 1;
    }
    false
}

/// The saved networks among scan results, in scan order, each once.
pub fn saved_credentials_in_scan_order(networks: &Vec<WifiNetwork>, config: &WifiConfig) -> (r: Vec<
    WifiConnectTarget,
>)
    ensures
        targets_view(r@) == scan_order_targets(networks_view(networks@), config@.credentials),
{
    let mut targets: Vec<WifiConnectTarget> = Vec::new();
    let mut i: usize = 0;
    while i < networks.len()
        invariant
            i <= networks.len(),
            targets_view(targets@) == scan_order_targets(
                networks_view(networks@.take(i as int)),
                config@.credentials,
            ),
        decreases networks.len() - i,
    {
        let network = &networks[i];
        assert(networks_view(networks@.take(i + 1)).drop_last() =~= networks_view(
            networks@.take(i as int),
        ));
        assert(networks_view(networks@.take(i + 1)).last() == network@);
        if !targets_contain(&targets, &network.ssid) {
            match find_credential(config, &network.ssid) {
                Some(k) => {
                    let target = WifiConnectTarget {
                        credential: clone_credential(&config.credentials[k]),
                        auth_method: network.auth_method,
                        channel: Some(network.channel),
                    };
                    let ghost prev = targets@;
                    assert(config@.credentials[k as int] == config.credentials@[k as int]@);
                    targets.push(target);
                    assert(targets_view(targets@) =~= targets_view(prev).push(target@));
                },
                None => {},
            }
        }
        i += 1;
    }
    assert(networks@.take(networks.len() as int) =~= networks@);
    targets
}

/// The station's status, the network last asked for and the last error.
#[derive(Debug, Clone, PartialEq, Eq)]
pub struct WifiState {
    pub status: WifiStatus,
    pub last_ssid: Option<String>,
    pub last_error: Option<String>,
}

pub struct WifiStateView {
    pub status: WifiStatus,
    pub last_ssid: Option<Seq<char>>,
    pub last_error: Option<Seq<char>>,
}

impl View for WifiState {
    type V = WifiStateView;

    open spec fn view(&self) -> WifiStateView {
        WifiStateView {
            status: self.status,
            last_ssid: crate::runtime::types::opt_string_view(&self.last_ssid),
            last_error: crate::runtime::types::opt_string_view(&self.last_error),
        }
    }
}

/// What joining at startup does first.
#[derive(Debug, Clone, Copy, PartialEq, Eq, Structural)]
pub enum StartupPlan {
    /// Joining at startup is off.
    Disabled,
    /// No network is saved.
    NoCredentials,
    /// Scan, then try the saved networks seen.
    ScanSaved,
}

/// Why the driver was not asked to join.
#[derive(Debug, Clone, Copy, PartialEq, Eq, Structural)]
pub enum WifiError {
    SsidTooLong,
    PasswordTooLong,
}

impl WifiError {
    /// The text this error reports.
    pub fn message(&self) -> (r: &'static str)
        ensures
            r@ == (match self {
                WifiError::SsidTooLong => "wifi ssid is too long"@,
                WifiError::PasswordTooLong => "wifi password is too long"@,
            }),
    {
        match self {
            WifiError::SsidTooLong => "wifi ssid is too long",
            WifiError::PasswordTooLong => "wifi password is too long",
        }
    }
}

/// Longest SSID the driver takes, in bytes.
pub const SSID_MAX_BYTES: usize = 32;

/// Longest password the driver takes, in bytes.
pub const WIFI_PASSWORD_MAX_BYTES: usize = 64;

impl WifiState {
    /// The station before anything was asked of it.
    pub fn new() -> (r: Self)
        ensures
            r@ == (WifiStateView { status: WifiStatus::Idle, last_ssid: None, last_error: None }),
    {
        WifiState { status: WifiStatus::Idle, last_ssid: None, last_error: None }
    }

    /// Decides how joining at startup begins: off when disabled, idle and
    /// cleared without saved networks, otherwise a scan.
    pub fn startup_plan(&mut self, config: &WifiConfig) -> (r: StartupPlan)
        ensures
            !config.connect_at_startup ==> r == StartupPlan::Disabled && final(self)@ == (WifiStateView {
                status: WifiStatus::Disabled,
                ..old(self)@
            }),
            config.connect_at_startup && config.credentials@.len() == 0 ==> r
                == StartupPlan::NoCredentials && final(self)@ == (WifiStateView {
                status: WifiStatus::Idle,
                last_ssid: None,
                last_error: None,
            }),
            config.connect_at_startup && config.credentials@.len() > 0 ==> r == StartupPlan::ScanSaved
                && final(self)@ == old(self)@,
    {
        if !config.connect_at_startup {
            self.status = WifiStatus::Disabled;
            return StartupPlan::Disabled;
        }
        if config.credentials.len() == 0 {
            self.status = WifiStatus::Idle;
            self.last_ssid = None;
            self.last_error = None;
            return StartupPlan::NoCredentials;
        }
        StartupPlan::ScanSaved
    }

    /// Records that `credential` is being joined, and checks that the
    /// driver can take its SSID and password.
    pub fn begin_connect(&mut self, credential: &WifiCredential) -> (r: Result<(), WifiError>)
        ensures
            final(self)@ == (WifiStateView {
                last_ssid: Some(credential.ssid@),
                last_error: None,
                ..old(self)@
            }),
            r == (if (crate::text::byte_len(credential.ssid@) as usize) > SSID_MAX_BYTES {
                Err(WifiError::SsidTooLong)
            } else if (crate::text::byte_len(credential.password@) as usize) > WIFI_PASSWORD_MAX_BYTES {
                Err(WifiError::PasswordTooLong)
            } else {
                Ok(())
            }),
    {
        self.last_ssid = Some(credential.ssid.clone());
        self.last_error = None;
        if crate::text::string_byte_len(&credential.ssid) > SSID_MAX_BYTES {
            return Err(WifiError::SsidTooLong);
        }
        if crate::text::string_byte_len(&credential.password) > WIFI_PASSWORD_MAX_BYTES {
            return Err(WifiError::PasswordTooLong);
        }
        Ok(())
    }

    /// The driver was configured and started: the station is started.
    pub fn mark_started(&mut self)
        ensures
            final(self)@ == (WifiStateView { status: WifiStatus::Started, ..old(self)@ }),
    {
        self.status = WifiStatus::Started;
    }

    /// The join ended: connected, or failed with the driver's error text.
    pub fn connect_finished(&mut self, result: Result<(), String>)
        ensures
            match result {
                Ok(()) => final(self)@ == (WifiStateView {
                    status: WifiStatus::Connected,
                    ..old(self)@
                }),
                Err(e) => final(self)@ == (WifiStateView {
                    status: WifiStatus::Failed,
                    last_error: Some(e@),
                    ..old(self)@
                }),
            },
    {
        match result {
            Ok(()) => {
                self.status = WifiStatus::Connected;
            },
            Err(e) => {
                self.status = WifiStatus::Failed;
                self.last_error = Some(e);
            },
        }
    }

    /// The station was stopped.
    pub fn mark_stopped(&mut self)
        ensures
            final(self)@ == (WifiStateView { status: WifiStatus::Idle, ..old(self)@ }),
    {
        self.status = WifiStatus::Idle;
    }

    /// The SSID shown for the current connection, when connected: the
    /// network last asked for, or "unknown".
    pub fn connection_ssid(&self) -> (r: Option<String>)
        ensures
            crate::runtime::types::opt_string_view(&r) == (if self.status == WifiStatus::Connected {
                Some(
                    match crate::runtime::types::opt_string_view(&self.last_ssid) {
                        Some(s) => s,
                        None => "unknown"@,
                    },
                )
            } else {
                None
            }),
    {
        if self.status != WifiStatus::Connected {
            return None;
        }
        match &self.last_ssid {
            Some(s) => Some(s.clone()),
            None => Some("unknown".to_owned()),
        }
    }
}

/// The networks to try at startup after a scan: the saved networks seen,
/// in scan order, or `None` when none was seen; after a failed scan
/// (`scanned` is `None`), every saved network in saved order without hints.
pub open spec fn startup_targets(
    scanned: Option<Seq<WifiNetworkView>>,
    creds: Seq<CredentialView>,
) -> Option<Seq<ConnectTargetView>> {
    match scanned {
        Some(networks) => {
            let found = scan_order_targets(networks, creds);
            if found.len() == 0 {
                None
            } else {
                Some(found)
            }
        },
        None => Some(
            creds.map_values(
                |c: CredentialView| ConnectTargetView { credential: c, auth_method: None, channel: None },
            ),
        ),
    }
}

pub fn startup_candidates(scanned: Option<&Vec<WifiNetwork>>, config: &WifiConfig) -> (r: Option<
    Vec<WifiConnectTarget>,
>)
    ensures
        match r {
            Some(v) => Some(targets_view(v@)),
            None => None,
        } == startup_targets(
            match scanned {
                Some(n) => Some(networks_view(n@)),
                None => None,
            },
            config@.credentials,
        ),
{
    match scanned {
        Some(networks) => {
            let found = saved_credentials_in_scan_order(networks, config);
            if found.len() == 0 {
                None
            } else {
                Some(found)
            }
        },
        None => {
            let ghost cv = config@.credentials;
            let mut targets: Vec<WifiConnectTarget> = Vec::new();
            let mut i: usize = 0;
            while i < config.credentials.len()
                invariant
                    cv == config@.credentials,
                    i <= config.credentials.len(),
                    targets_view(targets@) =~= cv.take(i as int).map_values(
                        |c: CredentialView|
                            ConnectTargetView { credential: c, auth_method: None, channel: None },
                    ),
                decreases config.credentials.len() - i,
            {
                assert(cv[i as int] == config.credentials@[i as int]@);
                let t = WifiConnectTarget::without_hint(clone_credential(&config.credentials[i]));
                targets.push(t);
                assert(cv.take(i + 1).map_values(
                    |c: CredentialView|
                        ConnectTargetView { credential: c, auth_method: None, channel: None },
                ) =~= cv.take(i as int).map_values(
                    |c: CredentialView|
                        ConnectTargetView { credential: c, auth_method: None, channel: None },
                ).push(t@));
                i += 1;
            }
            assert(cv.take(config.credentials.len() as int) =~= cv);
            Some(targets)
        },
    }
}

/// `n` inserted into `s`, strongest signal first, after every network not
/// weaker than it.
pub open spec fn insert_network(s: Seq<WifiNetworkView>, n: WifiNetworkView) -> Seq<WifiNetworkView>
    decreases s.len(),
{
    if s.len() == 0 {
        seq![n]
    } else if s.last().signal_dbm < n.signal_dbm {
        insert_network(s.drop_last(), n).push(s.last())
    } else {
        s.push(n)
    }
}

/// `s` strongest signal first, equal signals keeping their order.
pub open spec fn by_signal(s: Seq<WifiNetworkView>) -> Seq<WifiNetworkView>
    decreases s.len(),
{
    if s.len() == 0 {
        Seq::empty()
    } else {
        insert_network(by_signal(s.drop_last()), s.last())
    }
}

proof fn lemma_insert_network_at(s: Seq<WifiNetworkView>, n: WifiNetworkView, pos: int)
    requires
        0 <= pos <= s.len(),
        forall|k: int| pos <= k < s.len() ==> (#[trigger] s[k]).signal_dbm < n.signal_dbm,
        pos == 0 || !(s[pos - 1].signal_dbm < n.signal_dbm),
    ensures
        insert_network(s, n) == s.take(pos).push(n) + s.skip(pos),
    decreases s.len(),
{
    if s.len() == 0 {
        assert(s.take(pos).push(n) + s.skip(pos) =~= seq![n]);
    } else if pos == s.len() {
        assert(s.take(pos).push(n) + s.skip(pos) =~= s.push(n));
    } else {
        assert(s[s.len() - 1].signal_dbm < n.signal_dbm);
        let d = s.drop_last();
        assert forall|k: int| pos <= k < d.len() implies (#[trigger] d[k]).signal_dbm
            < n.signal_dbm by {
            assert(d[k] == s[k]);
        }
        if pos > 0 {
            assert(d[pos - 1] == s[pos - 1]);
        }
        lemma_insert_network_at(d, n, pos);
        assert(d.take(pos).push(n) + d.skip(pos) + seq![s.last()] =~= s.take(pos).push(n) + s.skip(
            pos,
        ));
        assert(insert_network(d, n).push(s.last()) =~= d.take(pos).push(n) + d.skip(pos) + seq![
            s.last(),
        ]);
    }
}

/// What joining the startup candidates does next: try the candidate at an
/// index, or end with the network joined (`Ok(Some(ssid))`), with nothing to
/// try (`Ok(None)`), or with the error of the last attempt.
#[derive(Debug)]
pub enum JoinStep<E> {
    Attempt(usize),
    Done(Result<Option<String>, E>),
}

/// The next step of joining `targets` in order, once the first `tried` of
/// them were attempted and `last` is how the last attempt ended (`None`
/// before any): the first success ends the join; a failure moves on to the
/// next candidate, and the last one's error ends it when none is left.
pub fn join_step<E>(targets: &Vec<WifiConnectTarget>, tried: usize, last: Option<Result<(), E>>) -> (r:
    JoinStep<E>)
    requires
        tried <= targets.len(),
        last is Some <==> tried > 0,
    ensures
        match last {
            None => if tried < targets.len() {
                r matches JoinStep::Attempt(i) && i == tried
            } else {
                r matches JoinStep::Done(Ok(None))
            },
            Some(Ok(())) => r matches JoinStep::Done(Ok(Some(ssid))) && ssid@
                == targets@[tried - 1].credential.ssid@,
            Some(Err(e)) => if tried < targets.len() {
                r matches JoinStep::Attempt(i) && i == tried
            } else {
                r matches JoinStep::Done(Err(err)) && err == e
            },
        },
{
    match last {
        Some(Ok(())) => JoinStep::Done(Ok(Some(targets[tried - 1].credential.ssid.clone()))),
        Some(Err(e)) => if tried < targets.len() {
            JoinStep::Attempt(tried)
        } else {
            JoinStep::Done(Err(e))
        },
        None => if tried < targets.len() {
            JoinStep::Attempt(tried)
        } else {
            JoinStep::Done(Ok(None))
        },
    }
}

/// Orders scan results strongest signal first.
pub fn sort_by_signal(networks: Vec<WifiNetwork>) -> (r: Vec<WifiNetwork>)
    ensures
        networks_view(r@) == by_signal(networks_view(networks@)),
{
    let ghost all = networks_view(networks@);
    let mut out: Vec<WifiNetwork> = Vec::new();
    let mut i: usize = 0;
    while i < networks.len()
        invariant
            all == networks_view(networks@),
            i <= networks.len(),
            networks_view(out@) == by_signal(all.take(i as int)),
        decreases networks.len() - i,
    {
        assert(all.take(i + 1).drop_last() =~= all.take(i as int));
        assert(all[i as int] == networks@[i as int]@);
        let n = WifiNetwork {
            ssid: networks[i].ssid.clone(),
            channel: networks[i].channel,
            signal_dbm: networks[i].signal_dbm,
            auth_method: networks[i].auth_method,
        };
        let ghost sv = networks_view(out@);
        let mut pos = out.len();
        while pos > 0 && out[pos - 1].signal_dbm < n.signal_dbm
            invariant
                sv == networks_view(out@),
                pos <= out.len(),
                forall|k: int| pos <= k < sv.len() ==> (#[trigger] sv[k]).signal_dbm < n.signal_dbm,
            decreases pos,
        {
            assert(sv[pos - 1] == out@[pos - 1]@);
            pos -= 1;
        }
        proof {
            if pos > 0 {
                assert(sv[pos - 1] == out@[pos - 1]@);
            }
            lemma_insert_network_at(sv, n@, pos as int);
        }
        let ghost nv = n@;
        out.insert(pos, n);
        assert(networks_view(out@) =~= sv.take(pos as int).push(nv) + sv.skip(pos as int));
        i += 1;
    }
    assert(all.take(networks.len() as int) =~= all);
    out
}

/// Are networks listed strongest signal first.
pub open spec fn strongest_first(s: Seq<WifiNetworkView>) -> bool {
    forall|i: int, j: int| 0 <= i < j < s.len() ==> (#[trigger] s[i]).signal_dbm >= (#[trigger] s[j]).signal_dbm
}

proof fn lemma_insert_network_members(s: Seq<WifiNetworkView>, n: WifiNetworkView)
    ensures
        insert_network(s, n).len() == s.len() + 1,
        forall|k: int|
            0 <= k < insert_network(s, n).len() ==> #[trigger] insert_network(s, n)[k] == n
                || s.contains(insert_network(s, n)[k]),
    decreases s.len(),
{
    if s.len() > 0 && s.last().signal_dbm < n.signal_dbm {
        let d = s.drop_last();
        lemma_insert_network_members(d, n);
        assert forall|k: int| 0 <= k < insert_network(s, n).len() implies #[trigger] insert_network(
            s,
            n,
        )[k] == n || s.contains(insert_network(s, n)[k]) by {
            if k < insert_network(d, n).len() {
                let x = insert_network(d, n)[k];
                if x != n {
                    let j = choose|j: int| 0 <= j < d.len() && d[j] == x;
                    assert(s[j] == x);
                }
            } else {
                assert(s[s.len() - 1] == s.last());
            }
        }
    } else if s.len() > 0 {
        assert forall|k: int| 0 <= k < insert_network(s, n).len() implies #[trigger] insert_network(
            s,
            n,
        )[k] == n || s.contains(insert_network(s, n)[k]) by {
            if k < s.len() {
                assert(s[k] == insert_network(s, n)[k]);
            }
        }
    }
}

proof fn lemma_insert_network_ordered(s: Seq<WifiNetworkView>, n: WifiNetworkView)
    requires
        strongest_first(s),
    ensures
        strongest_first(insert_network(s, n)),
    decreases s.len(),
{
    if s.len() > 0 && s.last().signal_dbm < n.signal_dbm {
        let d = s.drop_last();
        let last = s.last();
        assert(strongest_first(d));
        lemma_insert_network_ordered(d, n);
        lemma_insert_network_members(d, n);
        let r = insert_network(s, n);
        assert forall|i: int, j: int| 0 <= i < j < r.len() implies (#[trigger] r[i]).signal_dbm
            >= (#[trigger] r[j]).signal_dbm by {
            if j == r.len() - 1 {
                let x = insert_network(d, n)[i];
                assert(r[i] == x);
                if x != n {
                    let k = choose|k: int| 0 <= k < d.len() && d[k] == x;
                    assert(s[k] == x);
                    assert(s[s.len() - 1] == last);
                }
            } else {
                assert(r[i] == insert_network(d, n)[i]);
                assert(r[j] == insert_network(d, n)[j]);
            }
        }
    } else if s.len() > 0 {
        let r = s.push(n);
        assert forall|i: int, j: int| 0 <= i < j < r.len() implies (#[trigger] r[i]).signal_dbm
            >= (#[trigger] r[j]).signal_dbm by {
            if j == r.len() - 1 {
                if i < s.len() - 1 {
                    assert(s[i].signal_dbm >= s[s.len() - 1].signal_dbm);
                }
            } else {
                assert(r[i] == s[i]);
                assert(r[j] == s[j]);
            }
        }
    }
}

proof fn lemma_by_signal_ordered(s: Seq<WifiNetworkView>)
    ensures
        strongest_first(by_signal(s)),
        by_signal(s).len() == s.len(),
    decreases s.len(),
{
    if s.len() > 0 {
        lemma_by_signal_ordered(s.drop_last());
        lemma_insert_network_ordered(by_signal(s.drop_last()), s.last());
        lemma_insert_network_members(by_signal(s.drop_last()), s.last());
    }
}

/// A scan lists every network found, strongest signal first.
pub proof fn law_scan_strongest_first(networks: Seq<WifiNetworkView>)
    ensures
        strongest_first(by_signal(networks)),
        by_signal(networks).len() == networks.len(),
{
    lemma_by_signal_ordered(networks);
}

} // verus!
