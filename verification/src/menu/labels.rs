//! Short texts the menus show: signal strength, sizes, offsets, statuses,
//! and the cycles of SNTP servers and time zones.

use vstd::prelude::*;

use crate::board::{AudioStatus, ImuStatus};
use crate::config::{AppConfig, AppConfigView};
use crate::runtime::messages::{error_label, error_label_from_string, user_code_label};
use crate::text::{
    add_decimal2_pieces, add_decimal_piece, add_hex2_pieces, add_piece, add_signed_pieces,
    capped_chars, capped_push, capped_write, decimal, decimal2, decimal2_pieces, hex2_pieces,
    is_blank, pieces_view, push_capped, push_char, push_char_capped, push_chars_capped,
    push_decimal2, push_str, signed_pieces, str_eq, substring, take_chars, trim,
    write_capped,
};
use crate::wifi::WifiStatus;

verus! {

/// Words for a received signal strength in dBm.
pub open spec fn signal_word(signal_dbm: i8) -> Seq<char> {
    if -55 <= signal_dbm && signal_dbm <= 0 {
        "strong"@
    } else if -70 <= signal_dbm && signal_dbm <= -56 {
        "good"@
    } else if -85 <= signal_dbm && signal_dbm <= -71 {
        "weak"@
    } else {
        "poor"@
    }
}

pub fn signal_label(signal_dbm: i8) -> (r: &'static str)
    ensures
        r@ == signal_word(signal_dbm),
{
    if -55 <= signal_dbm && signal_dbm <= 0 {
        "strong"
    } else if -70 <= signal_dbm && signal_dbm <= -56 {
        "good"
    } else if -85 <= signal_dbm && signal_dbm <= -71 {
        "weak"
    } else {
        "poor"
    }
}

pub fn bool_label(value: bool) -> (r: &'static str)
    ensures
        r@ == (if value {
            "ON"@
        } else {
            "OFF"@
        }),
{
    if value {
        "ON"
    } else {
        "OFF"
    }
}

pub fn saved_network_count_label(count: usize) -> (r: &'static str)
    ensures
        r@ == (if count == 0 {
            "0"@
        } else if count == 1 {
            "1"@
        } else {
            "many"@
        }),
{
    if count == 0 {
        "0"
    } else if count == 1 {
        "1"
    } else {
        "many"
    }
}

/// Size of a recording: bytes below 1 KiB, whole KiB from there on, written
/// into a 16-byte buffer.
pub open spec fn recording_size_text(size_bytes: u64) -> Seq<char> {
    if size_bytes < 1024 {
        capped_write(Seq::empty(), seq![decimal(size_bytes as nat), "B"@], 16)
    } else {
        capped_write(Seq::empty(), seq![decimal((size_bytes / 1024) as nat), "KB"@], 16)
    }
}

pub fn recording_size_label(size_bytes: u64) -> (r: String)
    ensures
        r@ == recording_size_text(size_bytes),
{
    let mut pieces: Vec<String> = Vec::new();
    let ghost none = pieces_view(pieces@);
    assert(none =~= Seq::<Seq<char>>::empty());
    if size_bytes < 1024 {
        add_decimal_piece(&mut pieces, size_bytes);
        add_piece(&mut pieces, "B");
        assert(pieces_view(pieces@) =~= seq![decimal(size_bytes as nat), "B"@]);
    } else {
        add_decimal_piece(&mut pieces, size_bytes / 1024);
        add_piece(&mut pieces, "KB");
        assert(pieces_view(pieces@) =~= seq![decimal((size_bytes / 1024) as nat), "KB"@]);
    }
    let mut value = String::new();
    write_capped(&mut value, &pieces, 16);
    value
}

/// Position just after the last '/' in `s[..j]`, or 0 when there is none.
pub open spec fn after_last_slash(s: Seq<char>, j: int) -> int
    decreases j,
{
    if j <= 0 {
        0
    } else if s[j - 1] == '/' {
        j
    } else {
        after_last_slash(s, j - 1)
    }
}

/// The last segment of a '/'-separated path.
pub open spec fn file_name_of(path: Seq<char>) -> Seq<char> {
    path.skip(after_last_slash(path, path.len() as int))
}

proof fn lemma_after_last_slash_bounds(s: Seq<char>, j: int)
    requires
        0 <= j <= s.len(),
    ensures
        0 <= after_last_slash(s, j) <= j,
    decreases j,
{
    if j > 0 && s[j - 1] != '/' {
        lemma_after_last_slash_bounds(s, j - 1);
    }
}

pub fn file_name(path: &str) -> (r: String)
    ensures
        r@ == file_name_of(path@),
{
    let n = path.unicode_len();
    let mut j = n;
    while j > 0 && path.get_char(j - 1) != '/'
        invariant
            j <= n == path@.len(),
            after_last_slash(path@, n as int) == after_last_slash(path@, j as int),
        decreases j,
    {
        j -= 1;
    }
    proof {
        lemma_after_last_slash_bounds(path@, n as int);
    }
    let r = substring(path, j, n);
    assert(path@.subrange(j as int, n as int) =~= path@.skip(j as int));
    r
}

/// "<name> 0x<address>/0x<chip id>" of a present IMU, "missing" otherwise,
/// written into a 24-byte buffer.
pub open spec fn imu_text(status: ImuStatus) -> Seq<char> {
    if status.present && status.address is Some && status.chip_id is Some {
        capped_write(
            Seq::empty(),
            seq![status.name@, " 0x"@] + hex2_pieces(status.address->0) + seq!["/0x"@] + hex2_pieces(
                status.chip_id->0,
            ),
            24,
        )
    } else {
        capped_push(Seq::empty(), "missing"@, 24)
    }
}

pub fn imu_status_label(status: ImuStatus) -> (r: String)
    ensures
        r@ == imu_text(status),
{
    let mut value = String::new();
    match (status.present, status.address, status.chip_id) {
        (true, Some(address), Some(chip_id)) => {
            let mut pieces: Vec<String> = Vec::new();
            assert(pieces_view(pieces@) =~= Seq::<Seq<char>>::empty());
            add_piece(&mut pieces, status.name);
            add_piece(&mut pieces, " 0x");
            add_hex2_pieces(&mut pieces, address);
            add_piece(&mut pieces, "/0x");
            add_hex2_pieces(&mut pieces, chip_id);
            assert(pieces_view(pieces@) =~= seq![status.name@, " 0x"@] + hex2_pieces(address)
                + seq!["/0x"@] + hex2_pieces(chip_id));
            write_capped(&mut value, &pieces, 24);
        },
        _ => {
            push_capped(&mut value, "missing", 24);
        },
    }
    value
}

/// "<codec> S<Y|N> M<Y|N> <volume>%" of a present codec: whether the
/// speaker and the microphone paths are up, and the volume set; "missing"
/// otherwise; written into a 24-byte buffer.
pub open spec fn audio_text(status: AudioStatus, volume_percent: u8) -> Seq<char> {
    if status.codec_present {
        capped_write(
            Seq::empty(),
            seq![
                status.codec_name@,
                " S"@,
                yes_no(status.speaker_ready),
                " M"@,
                yes_no(status.microphone_ready),
                " "@,
                decimal(volume_percent as nat),
                "%"@,
            ],
            24,
        )
    } else {
        capped_push(Seq::empty(), "missing"@, 24)
    }
}

pub open spec fn yes_no(b: bool) -> Seq<char> {
    if b {
        "Y"@
    } else {
        "N"@
    }
}

fn yes_no_str(b: bool) -> (r: &'static str)
    ensures
        r@ == yes_no(b),
{
    if b {
        "Y"
    } else {
        "N"
    }
}

pub fn audio_status_label(status: AudioStatus, volume_percent: u8) -> (r: String)
    ensures
        r@ == audio_text(status, volume_percent),
{
    let mut value = String::new();
    if status.codec_present {
        let mut pieces: Vec<String> = Vec::new();
        let ghost none = pieces_view(pieces@);
        add_piece(&mut pieces, status.codec_name);
        add_piece(&mut pieces, " S");
        add_piece(&mut pieces, yes_no_str(status.speaker_ready));
        add_piece(&mut pieces, " M");
        add_piece(&mut pieces, yes_no_str(status.microphone_ready));
        add_piece(&mut pieces, " ");
        add_decimal_piece(&mut pieces, volume_percent as u64);
        add_piece(&mut pieces, "%");
        assert(pieces_view(pieces@) =~= seq![
            status.codec_name@,
            " S"@,
            yes_no(status.speaker_ready),
            " M"@,
            yes_no(status.microphone_ready),
            " "@,
            decimal(volume_percent as nat),
            "%"@,
        ]);
        write_capped(&mut value, &pieces, 24);
    } else {
        push_capped(&mut value, "missing", 24);
    }
    value
}

pub open spec fn wifi_status_word(status: WifiStatus) -> Seq<char> {
    match status {
        WifiStatus::Disabled => "disabled"@,
        WifiStatus::Idle => "idle"@,
        WifiStatus::Started => "started"@,
        WifiStatus::Connected => "connected"@,
        WifiStatus::Failed => "failed"@,
    }
}

pub fn wifi_status_label(status: WifiStatus) -> (r: &'static str)
    ensures
        r@ == wifi_status_word(status),
{
    match status {
        WifiStatus::Disabled => "disabled",
        WifiStatus::Idle => "idle",
        WifiStatus::Started => "started",
        WifiStatus::Connected => "connected",
        WifiStatus::Failed => "failed",
    }
}

/// State of the BLE advertiser.
#[derive(Debug, Clone, Copy, PartialEq, Eq, Structural)]
pub enum BleStatus {
    Idle,
    Ready,
    Advertising,
    Failed,
}

pub open spec fn ble_status_word(status: BleStatus) -> Seq<char> {
    match status {
        BleStatus::Idle => "idle"@,
        BleStatus::Ready => "ready"@,
        BleStatus::Advertising => "adv"@,
        BleStatus::Failed => "failed"@,
    }
}

pub fn ble_status_label(status: BleStatus) -> (r: &'static str)
    ensures
        r@ == ble_status_word(status),
{
    match status {
        BleStatus::Idle => "idle",
        BleStatus::Ready => "ready",
        BleStatus::Advertising => "adv",
        BleStatus::Failed => "failed",
    }
}

/// State of the SNTP time sync.
#[derive(Debug, Clone, Copy, PartialEq, Eq, Structural)]
pub enum TimeSyncStatus {
    Disabled,
    Idle,
    InProgress,
    Synced,
    Failed,
}

pub open spec fn time_status_word(status: TimeSyncStatus) -> Seq<char> {
    match status {
        TimeSyncStatus::Disabled => "off"@,
        TimeSyncStatus::Idle => "idle"@,
        TimeSyncStatus::InProgress => "syncing"@,
        TimeSyncStatus::Synced => "synced"@,
        TimeSyncStatus::Failed => "failed"@,
    }
}

pub fn time_status_label(status: TimeSyncStatus) -> (r: &'static str)
    ensures
        r@ == time_status_word(status),
{
    match status {
        TimeSyncStatus::Disabled => "off",
        TimeSyncStatus::Idle => "idle",
        TimeSyncStatus::InProgress => "syncing",
        TimeSyncStatus::Synced => "synced",
        TimeSyncStatus::Failed => "failed",
    }
}

/// DNS servers: the primary alone when the secondary is unset or the same,
/// "<primary>/<secondary>" otherwise; written into a 32-byte buffer.
pub open spec fn dns_text(primary: Seq<char>, secondary: Seq<char>) -> Seq<char> {
    if secondary == "0.0.0.0"@ || secondary == primary {
        capped_push(Seq::empty(), primary, 32)
    } else {
        capped_write(Seq::empty(), seq![primary, "/"@, secondary], 32)
    }
}

pub fn dns_label(primary: &str, secondary: &str) -> (r: String)
    ensures
        r@ == dns_text(primary@, secondary@),
{
    let mut value = String::new();
    if str_eq(secondary, "0.0.0.0") || str_eq(secondary, primary) {
        push_capped(&mut value, primary, 32);
    } else {
        let mut pieces: Vec<String> = Vec::new();
        let ghost none = pieces_view(pieces@);
        add_piece(&mut pieces, primary);
        add_piece(&mut pieces, "/");
        add_piece(&mut pieces, secondary);
        assert(pieces_view(pieces@) =~= seq![primary@, "/"@, secondary@]);
        write_capped(&mut value, &pieces, 32);
    }
    value
}

pub fn empty_dns_label() -> (r: String)
    ensures
        r@ == "-"@,
{
    "-".to_owned()
}

/// "UTC+HH" or "UTC-HH" for an offset in minutes (whole hours, at least two
/// digits), written into an 8-byte buffer.
pub open spec fn timezone_text(offset_minutes: i32) -> Seq<char> {
    let sign = if offset_minutes < 0 {
        '-'
    } else {
        '+'
    };
    let absolute = if offset_minutes < 0 {
        -offset_minutes
    } else {
        offset_minutes as int
    };
    capped_write(Seq::empty(), seq!["UTC"@, seq![sign]] + decimal2_pieces((absolute / 60) as nat), 8)
}

pub fn timezone_offset_label(offset_minutes: i32) -> (r: String)
    requires
        offset_minutes != i32::MIN,
    ensures
        r@ == timezone_text(offset_minutes),
{
    let sign = if offset_minutes < 0 {
        "-"
    } else {
        "+"
    };
    let absolute: i32 = if offset_minutes < 0 {
        -offset_minutes
    } else {
        offset_minutes
    };
    let mut pieces: Vec<String> = Vec::new();
    let ghost none = pieces_view(pieces@);
    add_piece(&mut pieces, "UTC");
    add_piece(&mut pieces, sign);
    add_decimal2_pieces(&mut pieces, (absolute / 60) as u64);
    proof {
        reveal_strlit("-");
        reveal_strlit("+");
        assert(sign@ =~= seq![if offset_minutes < 0 { '-' } else { '+' }]);
        assert(pieces_view(pieces@) =~= seq!["UTC"@, sign@] + decimal2_pieces((absolute / 60) as nat));
    }
    let mut value = String::new();
    write_capped(&mut value, &pieces, 8);
    value
}

/// A percentage, capped at 100, written into an 8-byte buffer.
pub open spec fn percent_text(percent: u8) -> Seq<char> {
    capped_write(
        Seq::empty(),
        seq![
            decimal((if percent > 100 {
                100
            } else {
                percent
            }) as nat),
            "%"@,
        ],
        8,
    )
}

pub fn percent_label(percent: u8) -> (r: String)
    ensures
        r@ == percent_text(percent),
{
    let shown: u8 = if percent > 100 {
        100
    } else {
        percent
    };
    let mut pieces: Vec<String> = Vec::new();
    let ghost none = pieces_view(pieces@);
    add_decimal_piece(&mut pieces, shown as u64);
    add_piece(&mut pieces, "%");
    assert(pieces_view(pieces@) =~= seq![decimal(shown as nat), "%"@]);
    let mut value = String::new();
    write_capped(&mut value, &pieces, 8);
    value
}

/// The SNTP servers offered, in the order the menu cycles through them.
pub open spec fn sntp_servers() -> Seq<Seq<char>> {
    seq![
        "ntp.tuna.tsinghua.edu.cn"@,
        "time.pool.aliyun.com"@,
        "time1.aliyun.com"@,
        "time2.aliyun.com"@,
        "time3.aliyun.com"@,
        "time4.aliyun.com"@,
        "time5.aliyun.com"@,
        "time6.aliyun.com"@,
        "time7.aliyun.com"@,
        "0.pool.ntp.org"@,
        "1.pool.ntp.org"@,
        "2.pool.ntp.org"@,
        "3.pool.ntp.org"@,
    ]
}

/// The server after `current` in the cycle; the first one when `current` is
/// not among them.
pub open spec fn next_server(current: Seq<char>) -> Seq<char> {
    let servers = sntp_servers();
    if exists|i: int| 0 <= i < servers.len() && servers[i] == current {
        let i = choose|i: int| 0 <= i < servers.len() && servers[i] == current;
        servers[(i + 1) % servers.len() as int]
    } else {
        servers[0]
    }
}

fn sntp_server(i: usize) -> (r: &'static str)
    requires
        i < 13,
    ensures
        r@ == sntp_servers()[i as int],
{
    match i {
        0 => "ntp.tuna.tsinghua.edu.cn",
        1 => "time.pool.aliyun.com",
        2 => "time1.aliyun.com",
        3 => "time2.aliyun.com",
        4 => "time3.aliyun.com",
        5 => "time4.aliyun.com",
        6 => "time5.aliyun.com",
        7 => "time6.aliyun.com",
        8 => "time7.aliyun.com",
        9 => "0.pool.ntp.org",
        10 => "1.pool.ntp.org",
        11 => "2.pool.ntp.org",
        _ => "3.pool.ntp.org",
    }
}

/// The server names are pairwise distinct, so a name has one position.
pub proof fn lemma_sntp_servers_distinct()
    ensures
        forall|i: int, j: int|
            0 <= i < 13 && 0 <= j < 13 && i != j ==> sntp_servers()[i] != sntp_servers()[j],
{
    reveal_strlit("ntp.tuna.tsinghua.edu.cn");
    reveal_strlit("time.pool.aliyun.com");
    reveal_strlit("time1.aliyun.com");
    reveal_strlit("time2.aliyun.com");
    reveal_strlit("time3.aliyun.com");
    reveal_strlit("time4.aliyun.com");
    reveal_strlit("time5.aliyun.com");
    reveal_strlit("time6.aliyun.com");
    reveal_strlit("time7.aliyun.com");
    reveal_strlit("0.pool.ntp.org");
    reveal_strlit("1.pool.ntp.org");
    reveal_strlit("2.pool.ntp.org");
    reveal_strlit("3.pool.ntp.org");
    let s = sntp_servers();
    assert forall|i: int, j: int| 0 <= i < 13 && 0 <= j < 13 && i != j implies s[i] != s[j] by {
        if s[i] == s[j] {
            assert(s[i].len() == s[j].len());
            assert(s[i][0] == s[j][0]);
            assert(s[i][4] == s[j][4]);
        }
    }
}

/// Picks the SNTP server after `current` in the cycle.
pub fn next_sntp_server(current: &str) -> (r: String)
    ensures
        r@ == next_server(current@),
{
    let mut i: usize = 0;
    while i < 13
        invariant
            i <= 13,
            forall|k: int| 0 <= k < i ==> sntp_servers()[k] != current@,
        decreases 13 - i,
    {
        if str_eq(sntp_server(i), current) {
            proof {
                lemma_sntp_servers_distinct();
                let c = choose|k: int| 0 <= k < 13 && sntp_servers()[k] == current@;
                assert(c == i);
            }
            let next = if i + 1 == 13 {
                0
            } else {
                i + 1
            };
            assert((i + 1) % 13 == next);
            return sntp_server(next).to_owned();
        }
        i += 1;
    }
    sntp_server(0).to_owned()
}

/// The time zone offsets offered, in minutes, in the order the menu cycles.
pub open spec fn timezone_offsets() -> Seq<i32> {
    seq![480i32, 0i32, -480i32, 540i32]
}

/// The offset after `current` in the cycle; the first one when `current` is
/// not among them.
pub open spec fn next_offset(current: i32) -> i32 {
    if current == 480 {
        0
    } else if current == 0 {
        -480i32
    } else if current == -480 {
        540
    } else {
        480
    }
}

pub fn next_timezone_offset(current: i32) -> (r: i32)
    ensures
        r == next_offset(current),
{
    if current == 480 {
        0
    } else if current == 0 {
        -480
    } else if current == -480 {
        540
    } else {
        480
    }
}

/// Is a Channel9 token saved.
pub open spec fn config_logged_in(config: AppConfigView) -> bool {
    config.channel9.access_token is Some
}

pub fn channel9_logged_in(config: &AppConfig) -> (r: bool)
    ensures
        r == config_logged_in(config@),
{
    config.channel9.access_token.is_some()
}

/// Rows of the Channel9 screen: seven when logged in, five otherwise.
pub open spec fn channel9_rows(config: AppConfigView) -> usize {
    if config_logged_in(config) {
        7
    } else {
        5
    }
}

pub fn channel9_item_count(config: &AppConfig) -> (r: usize)
    ensures
        r == channel9_rows(config@),
{
    if channel9_logged_in(config) {
        7
    } else {
        5
    }
}

/// Why the menu cannot create a device code: no device id, or WiFi offline.
pub open spec fn menu_login_block(config: AppConfigView, wifi_connected: bool) -> Option<Seq<char>> {
    if trim(config.channel9.device_id).len() == 0 {
        Some("Set Device first"@)
    } else if !wifi_connected {
        Some("WiFi offline"@)
    } else {
        None
    }
}

pub fn channel9_login_blocked_reason(config: &AppConfig, wifi_connected: bool) -> (r: Option<
    &'static str,
>)
    ensures
        match r {
            Some(s) => Some(s@),
            None => None::<Seq<char>>,
        } == menu_login_block(config@, wifi_connected),
{
    if is_blank(config.channel9.device_id.as_str()) {
        return Some("Set Device first");
    }
    if !wifi_connected {
        return Some("WiFi offline");
    }
    None
}

pub fn channel9_login_ready(config: &AppConfig, wifi_connected: bool) -> (r: bool)
    ensures
        r == (menu_login_block(config@, wifi_connected) is None),
{
    channel9_login_blocked_reason(config, wifi_connected).is_none()
}

/// The user-code row: the formatted active code, else the reason a code
/// cannot be created, else "Enter Create"; written into a 24-byte buffer.
pub open spec fn user_code_row(
    config: AppConfigView,
    wifi_connected: bool,
    active_user_code: Option<Seq<char>>,
) -> Seq<char> {
    capped_push(
        Seq::empty(),
        match active_user_code {
            Some(code) => user_code_label(code),
            None => match menu_login_block(config, wifi_connected) {
                Some(reason) => reason,
                None => "Enter Create"@,
            },
        },
        24,
    )
}

pub fn channel9_user_code_label(
    config: &AppConfig,
    wifi_connected: bool,
    active_user_code: Option<&String>,
) -> (r: String)
    ensures
        r@ == user_code_row(
            config@,
            wifi_connected,
            match active_user_code {
                Some(s) => Some(s@),
                None => None,
            },
        ),
{
    let text = match active_user_code {
        Some(code) => crate::runtime::messages::format_user_code(code.as_str()),
        None => match channel9_login_blocked_reason(config, wifi_connected) {
            Some(reason) => reason.to_owned(),
            None => "Enter Create".to_owned(),
        },
    };
    let mut value = String::new();
    push_capped(&mut value, text.as_str(), 24);
    value
}

/// Error label of a failed Channel9 call: "<prefix>: <first 32 characters>".
pub fn channel9_error_label(prefix: &str, error: &str) -> (r: String)
    ensures
        r@ == error_label(prefix@, error@),
{
    error_label_from_string(prefix, error)
}

/// A token expiry in seconds, or "-" when unknown; written into a 24-byte
/// buffer.
pub open spec fn epoch_text(value: Option<i64>) -> Seq<char> {
    match value {
        Some(v) => capped_write(Seq::empty(), signed_pieces(v as int), 24),
        None => capped_push(Seq::empty(), "-"@, 24),
    }
}

pub fn channel9_epoch_label(value: Option<i64>) -> (r: String)
    ensures
        r@ == epoch_text(value),
{
    let mut label = String::new();
    match value {
        Some(v) => {
            let mut pieces: Vec<String> = Vec::new();
            assert(pieces_view(pieces@) =~= Seq::<Seq<char>>::empty());
            add_signed_pieces(&mut pieces, v);
            assert(pieces_view(pieces@) =~= signed_pieces(v as int));
            write_capped(&mut label, &pieces, 24);
        },
        None => {
            push_capped(&mut label, "-", 24);
        },
    }
    label
}

/// The first 23 characters of a value, with '~' when more followed, each
/// pushed into a 24-byte buffer that leaves out what does not fit.
pub open spec fn truncated_runtime_text(value: Seq<char>) -> Seq<char> {
    let head = capped_chars(Seq::empty(), take_chars(value, 23), 24);
    if value.len() > 23 {
        capped_push(head, seq!['~'], 24)
    } else {
        head
    }
}

pub fn truncate_runtime_label(value: &str) -> (r: String)
    ensures
        r@ == truncated_runtime_text(value@),
{
    let n = value.unicode_len();
    let stop = if n > 23 {
        23
    } else {
        n
    };
    let head = substring(value, 0, stop);
    assert(head@ =~= take_chars(value@, 23));
    let mut out = String::new();
    push_chars_capped(&mut out, head.as_str(), 24);
    if n > 23 {
        push_char_capped(&mut out, '~', 24);
    }
    out
}

/// The first `max_chars` characters of a name, each pushed into a 24-byte
/// buffer that leaves out what does not fit.
pub open spec fn truncated_name(name: Seq<char>, max_chars: nat) -> Seq<char> {
    capped_chars(Seq::empty(), take_chars(name, max_chars), 24)
}

pub fn truncate_name(name: &str, max_chars: usize) -> (r: String)
    ensures
        r@ == truncated_name(name@, max_chars as nat),
{
    let n = name.unicode_len();
    let stop = if max_chars < n {
        max_chars
    } else {
        n
    };
    let head = substring(name, 0, stop);
    assert(head@ =~= take_chars(name@, max_chars as nat));
    let mut value = String::new();
    push_chars_capped(&mut value, head.as_str(), 24);
    value
}

/// A file size: whole MiB from 1 MiB on, whole KiB from 1 KiB on, bytes
/// below; written into an 8-byte buffer.
pub open spec fn size_text(size_bytes: u64) -> Seq<char> {
    if size_bytes >= 1024 * 1024 {
        capped_write(Seq::empty(), seq![decimal((size_bytes / 1024 / 1024) as nat), "M"@], 8)
    } else if size_bytes >= 1024 {
        capped_write(Seq::empty(), seq![decimal((size_bytes / 1024) as nat), "K"@], 8)
    } else {
        capped_write(Seq::empty(), seq![decimal(size_bytes as nat), "B"@], 8)
    }
}

pub fn format_size(size_bytes: u64) -> (r: String)
    ensures
        r@ == size_text(size_bytes),
{
    let (amount, unit) = if size_bytes >= 1024 * 1024 {
        (size_bytes / 1024 / 1024, "M")
    } else if size_bytes >= 1024 {
        (size_bytes / 1024, "K")
    } else {
        (size_bytes, "B")
    };
    let mut pieces: Vec<String> = Vec::new();
    let ghost none = pieces_view(pieces@);
    add_decimal_piece(&mut pieces, amount);
    add_piece(&mut pieces, unit);
    assert(pieces_view(pieces@) =~= seq![decimal(amount as nat), unit@]);
    let mut value = String::new();
    write_capped(&mut value, &pieces, 8);
    value
}

/// The masked password field: one '*' per character up to 28, "..." when
/// longer, "_" when empty.
pub open spec fn password_mask_text(password_len: usize) -> Seq<char> {
    if password_len == 0 {
        "_"@
    } else if password_len > 28 {
        Seq::new(28, |i: int| '*') + "..."@
    } else {
        Seq::new(password_len as nat, |i: int| '*')
    }
}

pub fn password_mask(password_len: usize) -> (r: String)
    ensures
        r@ == password_mask_text(password_len),
{
    let visible = if password_len < 28 {
        password_len
    } else {
        28
    };
    let mut masked = String::new();
    let mut i: usize = 0;
    while i < visible
        invariant
            i <= visible <= 28,
            masked@ == Seq::new(i as nat, |k: int| '*'),
        decreases visible - i,
    {
        push_char(&mut masked, '*');
        assert(masked@ =~= Seq::new((i + 1) as nat, |k: int| '*'));
        i += 1;
    }
    if password_len > visible {
        push_str(&mut masked, "...");
    }
    if masked.as_str().unicode_len() == 0 {
        push_char(&mut masked, '_');
        proof {
            reveal_strlit("_");
        }
        assert(masked@ =~= "_"@);
    }
    masked
}

/// First row shown of a list whose row `selected` must stay visible in a
/// window of four rows.
pub open spec fn window_start(selected: usize) -> usize {
    if selected < 3 {
        0
    } else {
        (selected - 3) as usize
    }
}

/// The rows `[start, end)` of a list of `len` rows shown around `selected`.
pub fn visible_window(len: usize, selected: usize) -> (r: (usize, usize))
    ensures
        r.0 == window_start(selected),
        r.1 == if r.0 >= len {
            len
        } else if len - r.0 > 4 {
            (r.0 + 4) as usize
        } else {
            len
        },
{
    let start = if selected < 3 {
        0
    } else {
        selected - 3
    };
    let end = if start >= len {
        len
    } else if len - start > 4 {
        start + 4
    } else {
        len
    };
    (start, end)
}

/// The entries shown left and right of the selected one in a circular menu
/// of `len` entries.
pub fn menu_neighbors(len: usize, selected: usize) -> (r: (usize, usize))
    requires
        0 < len,
        selected < len,
    ensures
        r.0 == if selected == 0 {
            len - 1
        } else {
            selected - 1
        },
        r.1 == (selected + 1) % (len as int),
        r.0 < len && r.1 < len,
{
    let prev = if selected == 0 {
        len - 1
    } else {
        selected - 1
    };
    (prev, (selected + 1) % len)
}

/// Width of an action button for a label of `label_len` bytes.
pub fn action_width(label_len: usize) -> (r: u32)
    ensures
        r == if label_len <= 3 {
            42u32
        } else if label_len <= 5 {
            48u32
        } else {
            58u32
        },
{
    if label_len <= 3 {
        42
    } else if label_len <= 5 {
        48
    } else {
        58
    }
}

/// Footer of the Channel9 screen: the message when there is one, otherwise
/// the keys that apply.
pub open spec fn channel9_footer_text(logged_in: bool, has_active_code: bool, message: Seq<char>) -> Seq<
    char,
> {
    if message.len() > 0 {
        message
    } else if logged_in {
        "ENTER: Clear  ESC: Back"@
    } else if has_active_code {
        "ENTER: Poll  RIGHT: More"@
    } else {
        "ENTER: Create  ESC: Back"@
    }
}

pub fn channel9_footer(logged_in: bool, has_active_code: bool, message: &str) -> (r: String)
    ensures
        r@ == channel9_footer_text(logged_in, has_active_code, message@),
{
    if message.unicode_len() > 0 {
        message.to_owned()
    } else if logged_in {
        "ENTER: Clear  ESC: Back".to_owned()
    } else if has_active_code {
        "ENTER: Poll  RIGHT: More".to_owned()
    } else {
        "ENTER: Create  ESC: Back".to_owned()
    }
}

/// Local "HH:MM" at `unix_secs` seconds since the epoch, shifted by
/// `offset_minutes`.
pub open spec fn clock_text(unix_secs: i64, offset_minutes: i32) -> Seq<char> {
    let local = unix_secs + offset_minutes * 60;
    let seconds_in_day = local % 86_400;
    decimal2((seconds_in_day / 3_600) as nat) + ":"@ + decimal2((seconds_in_day % 3_600 / 60) as nat)
}

pub fn clock_label(unix_secs: i64, offset_minutes: i32) -> (r: String)
    requires
        i64::MIN <= unix_secs + offset_minutes * 60 <= i64::MAX,
    ensures
        r@ == clock_text(unix_secs, offset_minutes),
{
    let local: i64 = unix_secs + (offset_minutes as i64) * 60;
    let seconds_in_day: u64 = if local >= 0 {
        (local as u64) % 86_400
    } else {
        let m: u64 = ((-(local + 1)) as u64) % 86_400;
        86_399 - m
    };
    proof {
        let l = local as int;
        if l < 0 {
            let m = (-(l + 1)) % 86_400;
            assert(0 <= m < 86_400);
            assert((-(l + 1)) == ((-(l + 1)) / 86_400) * 86_400 + m);
            assert(l == (-((-(l + 1)) / 86_400) - 1) * 86_400 + (86_399 - m));
            vstd::arithmetic::div_mod::lemma_fundamental_div_mod_converse(
                l,
                86_400,
                -((-(l + 1)) / 86_400) - 1,
                86_399 - m,
            );
        }
        assert(seconds_in_day == l % 86_400);
    }
    let mut value = String::new();
    push_decimal2(&mut value, seconds_in_day / 3_600);
    push_char(&mut value, ':');
    push_decimal2(&mut value, seconds_in_day % 3_600 / 60);
    proof {
        let a = decimal2((seconds_in_day / 3_600) as nat);
        let b = decimal2((seconds_in_day % 3_600 / 60) as nat);
        reveal_strlit(":");
        assert(Seq::<char>::empty() + a =~= a);
        assert(a.push(':') + b =~= a + ":"@ + b);
    }
    value
}

/// The status line of the home screen: "SD:<ON|OFF> WIFI:<AUTO|OFF>".
pub open spec fn home_status_text(sd_mounted: bool, wifi_enabled: bool) -> Seq<char> {
    "SD:"@ + (if sd_mounted {
        "ON"@
    } else {
        "OFF"@
    }) + " WIFI:"@ + (if wifi_enabled {
        "AUTO"@
    } else {
        "OFF"@
    })
}

pub fn home_status_label(sd_mounted: bool, wifi_enabled: bool) -> (r: String)
    ensures
        r@ == home_status_text(sd_mounted, wifi_enabled),
{
    let mut value = "SD:".to_owned();
    push_str(
        &mut value,
        if sd_mounted {
            "ON"
        } else {
            "OFF"
        },
    );
    push_str(&mut value, " WIFI:");
    push_str(
        &mut value,
        if wifi_enabled {
            "AUTO"
        } else {
            "OFF"
        },
    );
    value
}

/// A row of the file list: the name cut to 24 characters, followed by the
/// size for a plain file; written into a 36-byte buffer.
pub open spec fn file_row_text(name: Seq<char>, is_dir: bool, operation: bool, size_bytes: u64) -> Seq<
    char,
> {
    if operation || is_dir {
        capped_write(Seq::empty(), seq![truncated_name(name, 24)], 36)
    } else {
        capped_write(Seq::empty(), seq![truncated_name(name, 24), " "@, size_text(size_bytes)], 36)
    }
}

pub fn file_row_label(name: &str, is_dir: bool, operation: bool, size_bytes: u64) -> (r: String)
    ensures
        r@ == file_row_text(name@, is_dir, operation, size_bytes),
{
    let shown = truncate_name(name, 24);
    let mut pieces: Vec<String> = Vec::new();
    let ghost none = pieces_view(pieces@);
    add_piece(&mut pieces, shown.as_str());
    if !(operation || is_dir) {
        add_piece(&mut pieces, " ");
        let size = format_size(size_bytes);
        add_piece(&mut pieces, size.as_str());
        assert(pieces_view(pieces@) =~= seq![shown@, " "@, size@]);
    } else {
        assert(pieces_view(pieces@) =~= seq![shown@]);
    }
    let mut line = String::new();
    write_capped(&mut line, &pieces, 36);
    line
}

/// "<selected + 1>/<count>" shown when a list scrolls, written into a
/// 24-byte buffer.
pub open spec fn scroll_text(selected: usize, count: usize) -> Seq<char> {
    capped_write(Seq::empty(), seq![decimal((selected + 1) as nat), "/"@, decimal(count as nat)], 24)
}

pub fn scroll_label(selected: usize, count: usize) -> (r: String)
    requires
        selected < usize::MAX,
    ensures
        r@ == scroll_text(selected, count),
{
    let mut pieces: Vec<String> = Vec::new();
    let ghost none = pieces_view(pieces@);
    add_decimal_piece(&mut pieces, (selected + 1) as u64);
    add_piece(&mut pieces, "/");
    add_decimal_piece(&mut pieces, count as u64);
    assert(pieces_view(pieces@) =~= seq![decimal((selected + 1) as nat), "/"@, decimal(count as nat)]);
    let mut value = String::new();
    write_capped(&mut value, &pieces, 24);
    value
}

} // verus!
