//! Properties of the login and push flow that span several steps or hold for
//! every answer.

use vstd::prelude::*;

use crate::runtime::login::{
    after_auto_poll, after_build_login_request, code_expired, logged_in, poll_interval_ms,
};
use crate::runtime::messages::{display_text_of, field_text_from, normalized_code, user_code_label};
use crate::runtime::push::{
    after_build_sse_request, after_network_response, after_sse_failure, after_sse_messages,
    no_network_drain,
};
use crate::runtime::types::{
    default_push_view, Channel9LoginRequest, DeviceMessageView, LoginView, NetworkRequestView,
    PayloadFieldView, PushPayloadView,
    NetworkResponseView,
    PollTokenView, PushView, RuntimeConfigView, StatusChannel9,
};
use crate::text::{ascii_upper, is_ascii_alnum, take_chars, trim};

verus! {

/// At most one login request is on the network: a built request marks itself
/// in flight, and building again before its answer sends nothing and changes
/// nothing.
pub proof fn law_login_request_single_flight(
    cfg: RuntimeConfigView,
    login: LoginView,
    wifi_connected: bool,
    now_ms: u64,
    unix_now: Option<u64>,
    now2_ms: u64,
    unix_now2: Option<u64>,
)
    ensures
        ({
            let (l1, r1) = after_build_login_request(cfg, login, wifi_connected, now_ms, unix_now);
            r1 is Some ==> {
                &&& l1.inflight_request is Some
                &&& l1.pending_request is None
                &&& after_build_login_request(cfg, l1, wifi_connected, now2_ms, unix_now2) == (
                    l1,
                    None::<crate::runtime::types::NetworkRequestView>,
                )
            }
        }),
{
}

/// Building takes the queued login step off the queue: a request is made
/// exactly when the step becomes the one in flight, a refused step leaves
/// nothing in flight, and the request made is the one the step asks for (a
/// device code for Create, a token poll for Poll). This holds at every clock
/// value.
pub proof fn law_login_request_takes_the_queued_step(
    cfg: RuntimeConfigView,
    login: LoginView,
    request: Channel9LoginRequest,
    wifi_connected: bool,
    now_ms: u64,
    unix_now: Option<u64>,
)
    requires
        login.inflight_request is None,
        login.pending_request == Some(request),
    ensures
        ({
            let (after, made) = after_build_login_request(cfg, login, wifi_connected, now_ms, unix_now);
            &&& after.pending_request is None
            &&& (made is Some <==> after.inflight_request == Some(request))
            &&& (made is None ==> after.inflight_request is None)
            &&& (request == Channel9LoginRequest::Create ==> (made is None || made matches Some(
                NetworkRequestView::CreateDeviceCode { .. },
            )))
            &&& (request == Channel9LoginRequest::Poll ==> (made is None || made matches Some(
                NetworkRequestView::PollDeviceToken { .. },
            )))
        }),
{
}

/// A fetch resumes the stream where the device left it: every event-stream
/// request carries the push state's last cursor; and when the device is
/// logged in, online, nothing is in flight and the fetch time has come, such
/// a request is made.
pub proof fn law_fetch_resumes_after_last_cursor(
    cfg: RuntimeConfigView,
    wifi_connected: bool,
    push: PushView,
    interval_ms: u64,
    now_ms: u64,
)
    ensures
        after_build_sse_request(cfg, wifi_connected, push, interval_ms, now_ms).2 matches Some(
            NetworkRequestView::FetchDeviceEvents { cursor, .. },
        ) ==> cursor == push.last_cursor,
        (cfg.access_token is Some && wifi_connected && !push.fetch_in_flight && (
        push.next_fetch_at is None || push.next_fetch_at->0 <= now_ms)) ==> after_build_sse_request(
            cfg,
            wifi_connected,
            push,
            interval_ms,
            now_ms,
        ).2 == Some(
            NetworkRequestView::FetchDeviceEvents {
                api_base_url: cfg.api_base_url,
                device_id: cfg.device_id,
                access_token: cfg.access_token->0,
                interfaces: cfg.interfaces,
                cursor: push.last_cursor,
            },
        ),
{
}

/// After new messages are applied, the next fetch resumes after the last of
/// them: its cursor is that message's cursor.
pub proof fn law_fetch_after_messages_resumes_after_last(
    cfg: RuntimeConfigView,
    wifi_connected: bool,
    push: PushView,
    messages: Seq<DeviceMessageView>,
    interval_ms: u64,
    now_ms: u64,
)
    requires
        messages.len() > 0,
    ensures
        ({
            let (applied, _) = after_sse_messages(push, messages);
            after_build_sse_request(cfg, wifi_connected, applied, interval_ms, now_ms).2 matches Some(
                NetworkRequestView::FetchDeviceEvents { cursor, .. },
            ) ==> cursor == Some(messages.last().cursor)
        }),
{
}

/// The keys a push headline is looked up under, in the order they are tried.
pub open spec fn headline_keys() -> Seq<Seq<char>> {
    seq!["suggestion"@, "title"@, "message"@, "text"@, "body"@, "content"@]
}

/// Does the payload field named `key` hold text worth showing.
pub open spec fn shows_text(fields: Seq<PayloadFieldView>, key: Seq<char>) -> bool {
    field_text_from(fields, key, 0) matches Some(v) && trim(v).len() > 0
}

/// The headline of an object payload comes from the first of "suggestion",
/// "title", "message", "text", "body" and "content" whose string value is not
/// blank, trimmed and cut to 64 characters, whatever the later keys hold.
pub proof fn law_headline_key_order(fields: Seq<PayloadFieldView>, i: int, v: Seq<char>)
    requires
        0 <= i < 6,
        field_text_from(fields, headline_keys()[i], 0) == Some(v),
        trim(v).len() > 0,
        forall|j: int| 0 <= j < i ==> !shows_text(fields, #[trigger] headline_keys()[j]),
    ensures
        display_text_of(PushPayloadView::Object(fields)) == take_chars(trim(v), 64),
{
    let k = headline_keys();
    assert(k[0] == "suggestion"@);
    assert(k[1] == "title"@);
    assert(k[2] == "message"@);
    assert(k[3] == "text"@);
    assert(k[4] == "body"@);
    assert(k[5] == "content"@);
    if i > 0 {
        assert(!shows_text(fields, k[0]));
    }
    if i > 1 {
        assert(!shows_text(fields, k[1]));
    }
    if i > 2 {
        assert(!shows_text(fields, k[2]));
    }
    if i > 3 {
        assert(!shows_text(fields, k[3]));
    }
    if i > 4 {
        assert(!shows_text(fields, k[4]));
    }
}

/// A non-blank "suggestion" is the headline, whatever other keys the payload
/// has.
pub proof fn law_headline_prefers_suggestion(fields: Seq<PayloadFieldView>, v: Seq<char>)
    requires
        field_text_from(fields, "suggestion"@, 0) == Some(v),
        trim(v).len() > 0,
    ensures
        display_text_of(PushPayloadView::Object(fields)) == take_chars(trim(v), 64),
{
    assert(headline_keys()[0] == "suggestion"@);
    law_headline_key_order(fields, 0, v);
}

/// Events are fetched once at a time: after a fetch starts, deciding again
/// before its answer starts no second fetch and changes nothing.
pub proof fn law_sse_request_single_flight(
    cfg: RuntimeConfigView,
    wifi_connected: bool,
    push: PushView,
    interval_ms: u64,
    now_ms: u64,
    interval2_ms: u64,
    now2_ms: u64,
)
    ensures
        ({
            let (p1, _d1, r1) = after_build_sse_request(cfg, wifi_connected, push, interval_ms, now_ms);
            r1 is Some ==> {
                &&& p1.fetch_in_flight
                &&& ({
                    let (p2, d2, r2) = after_build_sse_request(
                        cfg,
                        wifi_connected,
                        p1,
                        interval2_ms,
                        now2_ms,
                    );
                    p2 == p1 && !d2.changed && r2 is None
                })
            }
        }),
{
}

/// Logged out, the push state returns to its defaults and nothing is fetched.
pub proof fn law_logged_out_resets_push(
    cfg: RuntimeConfigView,
    wifi_connected: bool,
    push: PushView,
    interval_ms: u64,
    now_ms: u64,
)
    requires
        !logged_in(cfg),
    ensures
        ({
            let (p, _d, r) = after_build_sse_request(cfg, wifi_connected, push, interval_ms, now_ms);
            p == default_push_view() && r is None
        }),
{
}

/// A device code issued for another device id than the configured one only
/// clears the in-flight marker.
pub proof fn law_stale_device_code_ignored(
    device_id: Seq<char>,
    result: Result<crate::runtime::types::DeviceCodeView, Seq<char>>,
    cfg: RuntimeConfigView,
    login: LoginView,
    push: PushView,
    wifi_connected: bool,
    failure_threshold: u8,
    now_ms: u64,
)
    requires
        device_id != cfg.device_id,
    ensures
        after_network_response(
            NetworkResponseView::DeviceCode { device_id, result },
            cfg,
            login,
            push,
            wifi_connected,
            failure_threshold,
            now_ms,
        ) == (cfg, LoginView { inflight_request: None, ..login }, push, no_network_drain()),
{
}

/// A token answer for a code that is not the active one only clears the
/// in-flight marker.
pub proof fn law_stale_token_ignored(
    device_code: Seq<char>,
    result: Result<PollTokenView, Seq<char>>,
    cfg: RuntimeConfigView,
    login: LoginView,
    push: PushView,
    wifi_connected: bool,
    failure_threshold: u8,
    now_ms: u64,
)
    requires
        login.active_code is None || login.active_code->0.device_code != device_code,
    ensures
        after_network_response(
            NetworkResponseView::DeviceToken { device_code, result },
            cfg,
            login,
            push,
            wifi_connected,
            failure_threshold,
            now_ms,
        ) == (cfg, LoginView { inflight_request: None, ..login }, push, no_network_drain()),
{
}

/// A new device code for this device replaces any saved token: the device
/// is logged out and waits for approval of the new code.
pub proof fn law_new_code_logs_out(
    code: crate::runtime::types::DeviceCodeView,
    cfg: RuntimeConfigView,
    login: LoginView,
    push: PushView,
    wifi_connected: bool,
    failure_threshold: u8,
    now_ms: u64,
)
    ensures
        ({
            let (c, l, _p, d) = after_network_response(
                NetworkResponseView::DeviceCode { device_id: cfg.device_id, result: Ok(code) },
                cfg,
                login,
                push,
                wifi_connected,
                failure_threshold,
                now_ms,
            );
            !logged_in(c) && l.active_code == Some(code) && l.inflight_request is None && d.changed
        }),
{
}

/// An approved token for the active code logs the device in with that token
/// and drops the code; an auto poll is then never scheduled.
pub proof fn law_approval_logs_in(
    token: crate::runtime::types::DeviceTokenView,
    cfg: RuntimeConfigView,
    login: LoginView,
    push: PushView,
    wifi_connected: bool,
    failure_threshold: u8,
    now_ms: u64,
    later_ms: u64,
    unix_now: Option<u64>,
)
    requires
        login.active_code is Some,
    ensures
        ({
            let (c, l, _p, _d) = after_network_response(
                NetworkResponseView::DeviceToken {
                    device_code: login.active_code->0.device_code,
                    result: Ok(PollTokenView::Approved(token)),
                },
                cfg,
                login,
                push,
                wifi_connected,
                failure_threshold,
                now_ms,
            );
            &&& c.access_token == Some(token.access_token)
            &&& c.device_id == token.device_id
            &&& c.workspace_id == token.workspace_id
            &&& l.active_code is None
            &&& after_auto_poll(c, l, later_ms, unix_now) == (l, false)
        }),
{
}

/// A pending answer keeps the code and schedules the next poll one poll
/// interval later.
pub proof fn law_pending_reschedules(
    cfg: RuntimeConfigView,
    login: LoginView,
    push: PushView,
    wifi_connected: bool,
    failure_threshold: u8,
    now_ms: u64,
)
    requires
        login.active_code is Some,
        now_ms <= u64::MAX - 60_000,
    ensures
        ({
            let code = login.active_code->0;
            let (c, l, p, _d) = after_network_response(
                NetworkResponseView::DeviceToken {
                    device_code: code.device_code,
                    result: Ok(PollTokenView::Pending),
                },
                cfg,
                login,
                push,
                wifi_connected,
                failure_threshold,
                now_ms,
            );
            &&& c == cfg
            &&& p == push
            &&& l.active_code == login.active_code
            &&& l.next_poll_at == Some((now_ms + poll_interval_ms(code)) as u64)
            &&& now_ms + 1000 <= l.next_poll_at->0 <= now_ms + 60_000
        }),
{
}

/// Failures count up to the threshold: the push status is `Failed` exactly
/// when the failure count reached the threshold or it already was `Failed`;
/// a successful fetch puts it back `Online` with no failures counted.
pub proof fn law_failure_threshold(
    push: PushView,
    failure_threshold: u8,
    messages: Seq<DeviceMessageView>,
)
    ensures
        ({
            let (p, _d) = after_sse_failure(push, failure_threshold);
            &&& p.consecutive_failures >= push.consecutive_failures
            &&& (p.status == StatusChannel9::Failed) <==> (p.consecutive_failures
                >= failure_threshold || push.status == StatusChannel9::Failed)
            &&& !p.fetch_in_flight
        }),
        ({
            let (p, _d) = after_sse_messages(push, messages);
            p.status == StatusChannel9::Online && p.consecutive_failures == 0 && !p.fetch_in_flight
        }),
{
}

/// An auto poll is never queued while logged in, while a request is queued
/// or in flight, or before the poll deadline.
pub proof fn law_auto_poll_waits(
    cfg: RuntimeConfigView,
    login: LoginView,
    now_ms: u64,
    unix_now: Option<u64>,
)
    ensures
        after_auto_poll(cfg, login, now_ms, unix_now).1 ==> {
            &&& !logged_in(cfg)
            &&& login.pending_request is None
            &&& login.inflight_request is None
            &&& login.active_code is Some
            &&& !code_expired(login, unix_now)
            &&& (login.next_poll_at is Some ==> login.next_poll_at->0 <= now_ms)
        },
{
}

/// Normalizing a concatenation normalizes each part.
proof fn lemma_normalized_concat(a: Seq<char>, b: Seq<char>)
    ensures
        normalized_code(a + b) == normalized_code(a) + normalized_code(b),
    decreases b.len(),
{
    if b.len() == 0 {
        assert(a + b =~= a);
        assert(normalized_code(b) =~= Seq::<char>::empty());
        assert(normalized_code(a) + normalized_code(b) =~= normalized_code(a));
    } else {
        lemma_normalized_concat(a, b.drop_last());
        assert((a + b).drop_last() =~= a + b.drop_last());
        assert((a + b).last() == b.last());
        if is_ascii_alnum(b.last()) {
            assert(normalized_code(a) + normalized_code(b.drop_last()).push(ascii_upper(b.last()))
                =~= (normalized_code(a) + normalized_code(b.drop_last())).push(
                ascii_upper(b.last()),
            ));
        }
    }
}

pub open spec fn is_code_char(c: char) -> bool {
    ('0' <= c && c <= '9') || ('A' <= c && c <= 'Z')
}

proof fn lemma_normalized_chars(s: Seq<char>)
    ensures
        forall|i: int| 0 <= i < normalized_code(s).len() ==> is_code_char(#[trigger] normalized_code(s)[i]),
        normalized_code(s).len() <= s.len(),
    decreases s.len(),
{
    if s.len() > 0 {
        lemma_normalized_chars(s.drop_last());
        let c = s.last();
        if is_ascii_alnum(c) {
            let u = ascii_upper(c);
            if 'a' <= c && c <= 'z' {
                assert(('a' as u32) - 32 <= (c as u32) - 32 <= ('z' as u32) - 32);
                assert(is_code_char(u)) by {
                    assert(u == ((c as u32) - 32) as char);
                }
            }
        }
    }
}

proof fn lemma_normalized_fixed(s: Seq<char>)
    requires
        forall|i: int| 0 <= i < s.len() ==> is_code_char(#[trigger] s[i]),
    ensures
        normalized_code(s) == s,
    decreases s.len(),
{
    if s.len() > 0 {
        assert forall|i: int| 0 <= i < s.drop_last().len() implies is_code_char(
            #[trigger] s.drop_last()[i],
        ) by {
            assert(s.drop_last()[i] == s[i]);
        }
        lemma_normalized_fixed(s.drop_last());
        assert(is_code_char(s[s.len() - 1]));
        assert(s.drop_last().push(s.last()) =~= s);
    }
}

/// Formatting a user code twice gives the same text as formatting it once.
pub proof fn law_user_code_idempotent(s: Seq<char>)
    ensures
        user_code_label(user_code_label(s)) == user_code_label(s),
{
    let n = normalized_code(s);
    lemma_normalized_chars(s);
    let t = take_chars(n, 12);
    assert forall|i: int| 0 <= i < t.len() implies is_code_char(#[trigger] t[i]) by {
        assert(t[i] == n[i]);
    }
    lemma_normalized_fixed(t);
    if t.len() > 4 {
        let label = t.take(4) + seq!['-'] + t.skip(4);
        lemma_normalized_concat(t.take(4) + seq!['-'], t.skip(4));
        lemma_normalized_concat(t.take(4), seq!['-']);
        assert forall|i: int| 0 <= i < t.take(4).len() implies is_code_char(#[trigger] t.take(4)[i]) by {
            assert(t.take(4)[i] == t[i]);
        }
        assert forall|i: int| 0 <= i < t.skip(4).len() implies is_code_char(#[trigger] t.skip(4)[i]) by {
            assert(t.skip(4)[i] == t[i + 4]);
        }
        lemma_normalized_fixed(t.take(4));
        lemma_normalized_fixed(t.skip(4));
        let dash = seq!['-'];
        assert(dash.drop_last() =~= Seq::<char>::empty());
        assert(normalized_code(Seq::<char>::empty()) =~= Seq::<char>::empty());
        assert(dash.last() == '-');
        assert(normalized_code(dash) == normalized_code(dash.drop_last()));
        assert(normalized_code(dash) =~= Seq::<char>::empty());
        assert(normalized_code(label) =~= t.take(4) + t.skip(4));
        assert(t.take(4) + t.skip(4) =~= t);
        assert(take_chars(t, 12) == t);
    } else {
        assert(take_chars(t, 12) == t);
    }
}

} // verus!
