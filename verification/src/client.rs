//! The Channel9 HTTP API as the device uses it: the requests it makes, the
//! reading of the JSON replies and of the server-sent event stream. The
//! HTTP exchange itself and the JSON decoding are left to the caller, which
//! hands the replies back here.

use vstd::prelude::*;

pub use crate::runtime::types::{DeviceCode, DeviceEvents, DeviceMessage, DeviceToken, PollToken};

use crate::runtime::types::{
    clone_strings, opt_string_view, strings_view, DeviceCodeView, DeviceEventsView,
    DeviceMessageView, DeviceTokenView, PayloadField, PollTokenView,
    PushPayload, PushPayloadView,
};
use crate::text::{
    decimal, pop_char, push_decimal, push_str, split, split_str,
    starts_with, str_eq, str_starts_with, substring, trim, trim_str,
};

verus! {

/// Most bytes of a reply the device reads.
pub const MAX_RESPONSE_BYTES: usize = 16384;

/// Size of the buffer a reply is read through.
pub const RESPONSE_BUFFER_BYTES: usize = 1024;

/// Time allowed for an HTTP exchange, in milliseconds.
pub const HTTP_TIMEOUT_MS: u64 = 15000;

/// The user agent the device sends.
pub fn user_agent() -> (r: &'static str)
    ensures
        r@ == "channel9os/0.1"@,
{
    "channel9os/0.1"
}

/// Path of the device-code endpoint.
pub fn device_codes_path() -> (r: &'static str)
    ensures
        r@ == "/api/v1/channel9/device-codes"@,
{
    "/api/v1/channel9/device-codes"
}

/// Path of the token endpoint.
pub fn device_token_path() -> (r: &'static str)
    ensures
        r@ == "/api/v1/channel9/device-codes/token"@,
{
    "/api/v1/channel9/device-codes/token"
}

/// `s` without the '/' characters it ends with.
pub open spec fn without_trailing_slashes(s: Seq<char>) -> Seq<char>
    decreases s.len(),
{
    if s.len() > 0 && s.last() == '/' {
        without_trailing_slashes(s.drop_last())
    } else {
        s
    }
}

/// Drops the '/' characters a base URL ends with.
pub fn trim_base_url(value: String) -> (r: String)
    ensures
        r@ == without_trailing_slashes(value@),
{
    let mut value = value;
    let ghost given = value@;
    while value.as_str().unicode_len() > 0 && value.as_str().get_char(
        value.as_str().unicode_len() - 1,
    ) == '/'
        invariant
            without_trailing_slashes(value@) == without_trailing_slashes(given),
        decreases value@.len(),
    {
        pop_char(&mut value);
    }
    value
}

/// Headers as text: each name with its value.
pub open spec fn headers_view(v: Seq<(String, String)>) -> Seq<(Seq<char>, Seq<char>)> {
    v.map_values(|h: (String, String)| (h.0@, h.1@))
}

/// The headers of a JSON POST whose body is `content_length` bytes: its
/// type, its length and the user agent.
pub open spec fn post_header_list(content_length: nat) -> Seq<(Seq<char>, Seq<char>)> {
    seq![
        ("content-type"@, "application/json"@),
        ("content-length"@, decimal(content_length)),
        ("user-agent"@, "channel9os/0.1"@),
    ]
}

fn add_header(headers: &mut Vec<(String, String)>, name: &str, value: String)
    ensures
        headers_view(final(headers)@) == headers_view(old(headers)@).push((name@, value@)),
{
    let ghost v = value@;
    headers.push((name.to_owned(), value));
    assert(headers_view(headers@) =~= headers_view(old(headers)@).push((name@, v)));
}

/// The headers sent with a JSON POST of `content_length` bytes.
pub fn post_headers(content_length: usize) -> (r: Vec<(String, String)>)
    ensures
        headers_view(r@) == post_header_list(content_length as nat),
{
    let mut length = String::new();
    push_decimal(&mut length, content_length as u64);
    assert(length@ =~= decimal(content_length as nat));
    let mut headers: Vec<(String, String)> = Vec::new();
    let ghost none = headers_view(headers@);
    add_header(&mut headers, "content-type", "application/json".to_owned());
    add_header(&mut headers, "content-length", length);
    add_header(&mut headers, "user-agent", user_agent().to_owned());
    assert(headers_view(headers@) =~= post_header_list(content_length as nat));
    headers
}

/// The headers of a fetch of the event stream with `access_token`: what it
/// accepts, the user agent, and the bearer token.
pub open spec fn event_stream_header_list(access_token: Seq<char>) -> Seq<(Seq<char>, Seq<char>)> {
    seq![
        ("accept"@, "text/event-stream"@),
        ("user-agent"@, "channel9os/0.1"@),
        ("authorization"@, "Bearer "@ + access_token),
    ]
}

/// The headers sent with a fetch of the event stream.
pub fn event_stream_headers(access_token: &str) -> (r: Vec<(String, String)>)
    ensures
        headers_view(r@) == event_stream_header_list(access_token@),
{
    let mut bearer = "Bearer ".to_owned();
    push_str(&mut bearer, access_token);
    let mut headers: Vec<(String, String)> = Vec::new();
    let ghost none = headers_view(headers@);
    add_header(&mut headers, "accept", "text/event-stream".to_owned());
    add_header(&mut headers, "user-agent", user_agent().to_owned());
    add_header(&mut headers, "authorization", bearer);
    assert(headers_view(headers@) =~= event_stream_header_list(access_token@));
    headers
}

/// A client of the Channel9 API at one base URL.
#[derive(Debug, Clone, PartialEq, Eq)]
pub struct Channel9HttpClient {
    api_base_url: String,
}

impl View for Channel9HttpClient {
    type V = Seq<char>;

    /// The base URL, without trailing slashes.
    closed spec fn view(&self) -> Seq<char> {
        self.api_base_url@
    }
}

impl Channel9HttpClient {
    /// A client of the API at `api_base_url`.
    pub fn new(api_base_url: String) -> (r: Self)
        ensures
            r@ == without_trailing_slashes(api_base_url@),
    {
        Channel9HttpClient { api_base_url: trim_base_url(api_base_url) }
    }

    /// The base URL requests go to.
    pub fn api_base_url(&self) -> (r: &str)
        ensures
            r@ == self@,
    {
        self.api_base_url.as_str()
    }

    /// The URL of `path` at this API.
    pub fn url(&self, path: &str) -> (r: String)
        ensures
            r@ == self@ + path@,
    {
        let mut url = self.api_base_url.clone();
        push_str(&mut url, path);
        url
    }
}

/// The error body of a refused API call.
#[derive(Debug, Clone, PartialEq, Eq)]
pub struct ApiErrorBody {
    pub code: String,
    pub message: String,
}

pub struct ErrorBodyView {
    pub code: Seq<char>,
    pub message: Seq<char>,
}

impl View for ApiErrorBody {
    type V = ErrorBodyView;

    open spec fn view(&self) -> ErrorBodyView {
        ErrorBodyView { code: self.code@, message: self.message@ }
    }
}

/// The error reported when a refusal carries no error body.
pub open spec fn default_error_view() -> ErrorBodyView {
    ErrorBodyView { code: "channel9_request_failed"@, message: "Channel9 request failed"@ }
}

pub fn default_api_error() -> (r: ApiErrorBody)
    ensures
        r@ == default_error_view(),
{
    ApiErrorBody {
        code: "channel9_request_failed".to_owned(),
        message: "Channel9 request failed".to_owned(),
    }
}

/// The JSON envelope of every API reply.
#[derive(Debug, Clone, PartialEq, Eq)]
pub struct ApiEnvelope<T> {
    pub ok: bool,
    pub data: Option<T>,
    pub error: Option<ApiErrorBody>,
}

pub struct EnvelopeView<V> {
    pub ok: bool,
    pub data: Option<V>,
    pub error: Option<ErrorBodyView>,
}

impl<T: View> View for ApiEnvelope<T> {
    type V = EnvelopeView<T::V>;

    open spec fn view(&self) -> EnvelopeView<T::V> {
        EnvelopeView {
            ok: self.ok,
            data: match &self.data {
                Some(d) => Some(d@),
                None => None,
            },
            error: match &self.error {
                Some(e) => Some(e@),
                None => None,
            },
        }
    }
}

/// A reply as read from the network: the HTTP status, and the envelope the
/// body decoded to, or the decoder's error text.
pub struct ApiReply<T> {
    pub status: u16,
    pub parsed: Result<ApiEnvelope<T>, String>,
}

/// Why a Channel9 call failed.
#[derive(Debug, Clone, PartialEq, Eq)]
pub enum ClientError {
    /// The HTTPS connection to `url` could not be opened.
    Connect { url: String },
    /// The HTTP layer failed; `detail` is its report.
    Transport { detail: String },
    /// The request body could not be written.
    WriteFailed,
    /// The reply was longer than `MAX_RESPONSE_BYTES`.
    TooLarge,
    /// A reply claiming success came with a status outside 200..300.
    Http { status: u16 },
    /// A reply with a status outside 200..300 that could not be read.
    HttpBody { status: u16, detail: String },
    /// A reply from `url` with a success status that could not be decoded.
    Parse { url: String, detail: String },
    /// A successful reply without its data.
    MissingData,
    /// The API refused the call.
    Api { code: String, message: String },
}

pub enum ClientErrorView {
    Connect { url: Seq<char> },
    Transport { detail: Seq<char> },
    WriteFailed,
    TooLarge,
    Http { status: u16 },
    HttpBody { status: u16, detail: Seq<char> },
    Parse { url: Seq<char>, detail: Seq<char> },
    MissingData,
    Api { code: Seq<char>, message: Seq<char> },
}

impl View for ClientError {
    type V = ClientErrorView;

    open spec fn view(&self) -> ClientErrorView {
        match self {
            ClientError::Connect { url } => ClientErrorView::Connect { url: url@ },
            ClientError::Transport { detail } => ClientErrorView::Transport { detail: detail@ },
            ClientError::WriteFailed => ClientErrorView::WriteFailed,
            ClientError::TooLarge => ClientErrorView::TooLarge,
            ClientError::Http { status } => ClientErrorView::Http { status: *status },
            ClientError::HttpBody { status, detail } => ClientErrorView::HttpBody {
                status: *status,
                detail: detail@,
            },
            ClientError::Parse { url, detail } => ClientErrorView::Parse {
                url: url@,
                detail: detail@,
            },
            ClientError::MissingData => ClientErrorView::MissingData,
            ClientError::Api { code, message } => ClientErrorView::Api {
                code: code@,
                message: message@,
            },
        }
    }
}

/// The text a failed call reports.
pub open spec fn error_text(e: ClientErrorView) -> Seq<char> {
    match e {
        ClientErrorView::Connect { url } => "failed to connect to Channel9 HTTPS endpoint "@ + url
            + "; check WiFi IP, DNS, TLS time, and server reachability"@,
        ClientErrorView::Transport { detail } => detail,
        ClientErrorView::WriteFailed => "failed to write Channel9 request body"@,
        ClientErrorView::TooLarge => "Channel9 response exceeded 16384 bytes"@,
        ClientErrorView::Http { status } => "Channel9 request failed with HTTP "@ + decimal(
            status as nat,
        ),
        ClientErrorView::HttpBody { status, detail } => "Channel9 request failed with HTTP "@
            + decimal(status as nat) + ": "@ + detail,
        ClientErrorView::Parse { url, detail } => "failed to parse Channel9 response from "@ + url,
        ClientErrorView::MissingData => "Channel9 response missing data"@,
        ClientErrorView::Api { code, message } => code + ": "@ + message,
    }
}

impl ClientError {
    /// The text this error reports.
    pub fn message(&self) -> (r: String)
        ensures
            r@ == error_text(self@),
    {
        match self {
            ClientError::Connect { url } => {
                let mut r = "failed to connect to Channel9 HTTPS endpoint ".to_owned();
                push_str(&mut r, url.as_str());
                push_str(&mut r, "; check WiFi IP, DNS, TLS time, and server reachability");
                r
            },
            ClientError::Transport { detail } => detail.clone(),
            ClientError::WriteFailed => "failed to write Channel9 request body".to_owned(),
            ClientError::TooLarge => "Channel9 response exceeded 16384 bytes".to_owned(),
            ClientError::Http { status } => {
                let mut r = "Channel9 request failed with HTTP ".to_owned();
                push_decimal(&mut r, *status as u64);
                r
            },
            ClientError::HttpBody { status, detail } => {
                let mut r = "Channel9 request failed with HTTP ".to_owned();
                push_decimal(&mut r, *status as u64);
                push_str(&mut r, ": ");
                push_str(&mut r, detail.as_str());
                r
            },
            ClientError::Parse { url, .. } => {
                let mut r = "failed to parse Channel9 response from ".to_owned();
                push_str(&mut r, url.as_str());
                r
            },
            ClientError::MissingData => "Channel9 response missing data".to_owned(),
            ClientError::Api { code, message } => {
                let mut r = code.clone();
                push_str(&mut r, ": ");
                push_str(&mut r, message.as_str());
                r
            },
        }
    }
}

/// Is an HTTP status a success (200..300).
pub open spec fn is_success(status: u16) -> bool {
    200 <= status && status < 300
}

/// Appends a chunk of a reply to what was read so far, refusing replies
/// longer than `MAX_RESPONSE_BYTES`.
pub fn accept_response_chunk(body: &mut Vec<u8>, chunk: &[u8]) -> (r: Result<(), ClientError>)
    ensures
        r is Ok <==> old(body)@.len() + chunk@.len() <= MAX_RESPONSE_BYTES,
        r is Ok ==> final(body)@ == old(body)@ + chunk@,
        r is Err ==> final(body)@ == old(body)@ && r == Err::<(), ClientError>(ClientError::TooLarge),
{
    if chunk.len() > MAX_RESPONSE_BYTES || body.len() > MAX_RESPONSE_BYTES - chunk.len() {
        return Err(ClientError::TooLarge);
    }
    let mut i: usize = 0;
    while i < chunk.len()
        invariant
            i <= chunk@.len(),
            body@ == old(body)@ + chunk@.take(i as int),
        decreases chunk@.len() - i,
    {
        body.push(chunk[i]);
        assert(chunk@.take(i + 1) =~= chunk@.take(i as int).push(chunk@[i as int]));
        assert(body@ =~= old(body)@ + chunk@.take(i + 1));
        i += 1;
    }
    assert(chunk@.take(chunk@.len() as int) =~= chunk@);
    Ok(())
}

/// What a reply decoded to once its status is taken into account.
pub open spec fn checked_envelope<V>(
    url: Seq<char>,
    status: u16,
    parsed: Result<EnvelopeView<V>, Seq<char>>,
) -> Result<EnvelopeView<V>, ClientErrorView> {
    match parsed {
        Ok(envelope) => if envelope.ok && !is_success(status) {
            Err(ClientErrorView::Http { status })
        } else {
            Ok(envelope)
        },
        Err(detail) => if !is_success(status) {
            Err(ClientErrorView::HttpBody { status, detail })
        } else {
            Err(ClientErrorView::Parse { url, detail })
        },
    }
}

fn check_envelope<T: View>(url: &String, reply: ApiReply<T>) -> (r: Result<ApiEnvelope<T>, ClientError>)
    ensures
        match r {
            Ok(e) => Ok(e@),
            Err(e) => Err(e@),
        } == checked_envelope(
            url@,
            reply.status,
            match reply.parsed {
                Ok(e) => Ok(e@),
                Err(d) => Err(d@),
            },
        ),
{
    let status = reply.status;
    let success = 200 <= status && status < 300;
    match reply.parsed {
        Ok(envelope) => if envelope.ok && !success {
            Err(ClientError::Http { status })
        } else {
            Ok(envelope)
        },
        Err(detail) => if !success {
            Err(ClientError::HttpBody { status, detail })
        } else {
            Err(ClientError::Parse { url: url.clone(), detail })
        },
    }
}

/// The text of an API refusal: its error body, or the default one.
pub open spec fn refusal<V>(envelope: EnvelopeView<V>) -> ClientErrorView {
    refusal_of(envelope.error)
}

pub open spec fn refusal_of(error: Option<ErrorBodyView>) -> ClientErrorView {
    let e = match error {
        Some(e) => e,
        None => default_error_view(),
    };
    ClientErrorView::Api { code: e.code, message: e.message }
}

/// The outcome of a device-code request, given the base URL the client
/// posted to and the reply.
pub open spec fn device_code_outcome(
    url: Seq<char>,
    status: u16,
    parsed: Result<EnvelopeView<DeviceCodeView>, Seq<char>>,
) -> Result<DeviceCodeView, ClientErrorView> {
    match checked_envelope(url, status, parsed) {
        Err(e) => Err(e),
        Ok(envelope) => if envelope.ok {
            match envelope.data {
                Some(code) => Ok(code),
                None => Err(ClientErrorView::MissingData),
            }
        } else {
            Err(refusal(envelope))
        },
    }
}

/// The outcome of a token poll: the API answers "authorization_pending"
/// while the user has not approved yet.
pub open spec fn poll_outcome(
    url: Seq<char>,
    status: u16,
    parsed: Result<EnvelopeView<DeviceTokenView>, Seq<char>>,
) -> Result<PollTokenView, ClientErrorView> {
    match checked_envelope(url, status, parsed) {
        Err(e) => Err(e),
        Ok(envelope) => if envelope.ok {
            match envelope.data {
                Some(token) => Ok(PollTokenView::Approved(token)),
                None => Err(ClientErrorView::MissingData),
            }
        } else if refusal(envelope) matches ClientErrorView::Api { code, .. } && code
            == "authorization_pending"@ {
            Ok(PollTokenView::Pending)
        } else {
            Err(refusal(envelope))
        },
    }
}

fn api_refusal(error: Option<ApiErrorBody>) -> (r: ClientError)
    ensures
        r@ == refusal_of(
            match error {
                Some(e) => Some(e@),
                None => None,
            },
        ),
{
    let e = match error {
        Some(e) => e,
        None => default_api_error(),
    };
    ClientError::Api { code: e.code, message: e.message }
}

/// The body of a device-code request.
#[derive(Debug, Clone, PartialEq, Eq)]
pub struct CreateDeviceCodeRequest {
    pub device_id: String,
    pub description: Option<String>,
    pub interfaces: Vec<String>,
}

/// The body of a token poll.
#[derive(Debug, Clone, PartialEq, Eq)]
pub struct PollDeviceTokenRequest {
    pub device_code: String,
}

/// A JSON POST to make: where, and what to send.
pub struct JsonPost<T> {
    pub url: String,
    pub body: T,
}

/// The description sent with a device-code request: trimmed, and left out
/// when blank.
pub open spec fn description_sent(value: Seq<char>) -> Option<Seq<char>> {
    if trim(value).len() == 0 {
        None
    } else {
        Some(trim(value))
    }
}

pub fn non_empty_description(value: &str) -> (r: Option<String>)
    ensures
        opt_string_view(&r) == description_sent(value@),
{
    let trimmed = trim_str(value);
    if trimmed.as_str().unicode_len() == 0 {
        None
    } else {
        Some(trimmed)
    }
}

impl Channel9HttpClient {
    /// The POST that asks for a device code for `device_id`.
    pub fn create_device_code_request(
        &self,
        device_id: &str,
        description: &str,
        interfaces: &Vec<String>,
    ) -> (r: JsonPost<CreateDeviceCodeRequest>)
        ensures
            r.url@ == self@ + "/api/v1/channel9/device-codes"@,
            r.body.device_id@ == device_id@,
            opt_string_view(&r.body.description) == description_sent(description@),
            strings_view(r.body.interfaces@) == strings_view(interfaces@),
    {
        JsonPost {
            url: self.url(device_codes_path()),
            body: CreateDeviceCodeRequest {
                device_id: device_id.to_owned(),
                description: non_empty_description(description),
                interfaces: clone_strings(interfaces),
            },
        }
    }

    /// Reads the reply to a device-code request.
    pub fn create_device_code(&self, reply: ApiReply<DeviceCode>) -> (r: Result<
        DeviceCode,
        ClientError,
    >)
        ensures
            match r {
                Ok(c) => Ok(c@),
                Err(e) => Err(e@),
            } == device_code_outcome(
                self@ + "/api/v1/channel9/device-codes"@,
                reply.status,
                match reply.parsed {
                    Ok(e) => Ok(e@),
                    Err(d) => Err(d@),
                },
            ),
    {
        let url = self.url(device_codes_path());
        let envelope = match check_envelope(&url, reply) {
            Ok(e) => e,
            Err(e) => return Err(e),
        };
        if envelope.ok {
            match envelope.data {
                Some(code) => Ok(code),
                None => Err(ClientError::MissingData),
            }
        } else {
            Err(api_refusal(envelope.error))
        }
    }

    /// The POST that polls for the token of `device_code`.
    pub fn poll_device_token_request(&self, device_code: &str) -> (r: JsonPost<
        PollDeviceTokenRequest,
    >)
        ensures
            r.url@ == self@ + "/api/v1/channel9/device-codes/token"@,
            r.body.device_code@ == device_code@,
    {
        JsonPost {
            url: self.url(device_token_path()),
            body: PollDeviceTokenRequest { device_code: device_code.to_owned() },
        }
    }

    /// Reads the reply to a token poll.
    pub fn poll_device_token(&self, reply: ApiReply<DeviceToken>) -> (r: Result<
        PollToken,
        ClientError,
    >)
        ensures
            match r {
                Ok(t) => Ok(t@),
                Err(e) => Err(e@),
            } == poll_outcome(
                self@ + "/api/v1/channel9/device-codes/token"@,
                reply.status,
                match reply.parsed {
                    Ok(e) => Ok(e@),
                    Err(d) => Err(d@),
                },
            ),
    {
        let url = self.url(device_token_path());
        let envelope = match check_envelope(&url, reply) {
            Ok(e) => e,
            Err(e) => return Err(e),
        };
        if envelope.ok {
            match envelope.data {
                Some(token) => Ok(PollToken::Approved(token)),
                None => Err(ClientError::MissingData),
            }
        } else {
            let refused = api_refusal(envelope.error);
            proof {
                reveal_strlit("authorization_pending");
            }
            let pending = match &refused {
                ClientError::Api { code, .. } => str_eq(code.as_str(), "authorization_pending"),
                _ => false,
            };
            if pending {
                Ok(PollToken::Pending)
            } else {
                Err(refused)
            }
        }
    }
}

/// `value` without its "https://" or "http://" prefix.
pub open spec fn without_scheme(value: Seq<char>) -> Seq<char> {
    if starts_with(value, "https://"@) {
        value.skip(8)
    } else if starts_with(value, "http://"@) {
        value.skip(7)
    } else {
        value
    }
}

/// Index of the first '/' at or after `i`, or the length when none.
pub open spec fn first_slash_from(s: Seq<char>, i: int) -> int
    decreases s.len() - i,
{
    if i < 0 || i >= s.len() {
        s.len() as int
    } else if s[i] == '/' {
        i
    } else {
        first_slash_from(s, i + 1)
    }
}

proof fn lemma_first_slash_bounds(s: Seq<char>, i: int)
    requires
        0 <= i <= s.len(),
    ensures
        i <= first_slash_from(s, i) <= s.len(),
    decreases s.len() - i,
{
    if i < s.len() && s[i] != '/' {
        lemma_first_slash_bounds(s, i + 1);
    }
}

/// The host of a URL: what follows the scheme up to the first '/', when
/// not empty.
pub open spec fn host_of(value: Seq<char>) -> Option<Seq<char>> {
    let rest = without_scheme(value);
    let host = rest.take(first_slash_from(rest, 0));
    if host.len() == 0 {
        None
    } else {
        Some(host)
    }
}

pub fn endpoint_host(value: &str) -> (r: Option<String>)
    ensures
        opt_string_view(&r) == host_of(value@),
{
    proof {
        reveal_strlit("https://");
        reveal_strlit("http://");
    }
    let n = value.unicode_len();
    let skip: usize = if str_starts_with(value, "https://") {
        8
    } else if str_starts_with(value, "http://") {
        7
    } else {
        0
    };
    let rest = substring(value, skip, n);
    assert(rest@ == without_scheme(value@));
    let m = rest.as_str().unicode_len();
    let mut i: usize = 0;
    while i < m && rest.as_str().get_char(i) != '/'
        invariant
            m == rest@.len(),
            i <= m,
            first_slash_from(rest@, 0) == first_slash_from(rest@, i as int),
        decreases m - i,
    {
        i += 1;
    }
    proof {
        lemma_first_slash_bounds(rest@, 0);
    }
    if i == 0 {
        None
    } else {
        let host = substring(rest.as_str(), 0, i);
        assert(host@ =~= rest@.take(i as int));
        Some(host)
    }
}

/// The pieces of `parts` joined with `sep` between them.
pub open spec fn join(parts: Seq<Seq<char>>, sep: Seq<char>) -> Seq<char>
    decreases parts.len(),
{
    if parts.len() == 0 {
        Seq::empty()
    } else if parts.len() == 1 {
        parts[0]
    } else {
        join(parts.drop_last(), sep) + sep + parts.last()
    }
}

fn join_strings(parts: &Vec<String>, sep: &str) -> (r: String)
    ensures
        r@ == join(strings_view(parts@), sep@),
{
    let mut out = String::new();
    let mut i: usize = 0;
    while i < parts.len()
        invariant
            i <= parts.len(),
            out@ == join(strings_view(parts@).take(i as int), sep@),
        decreases parts.len() - i,
    {
        let ghost prefix = strings_view(parts@).take(i as int);
        assert(strings_view(parts@).take(i + 1).drop_last() =~= prefix);
        assert(strings_view(parts@).take(i + 1).last() == parts@[i as int]@);
        if i > 0 {
            push_str(&mut out, sep);
        } else {
            assert(strings_view(parts@).take(1)[0] == parts@[0]@);
            assert(Seq::<char>::empty() + parts@[0]@ =~= parts@[0]@);
        }
        push_str(&mut out, parts[i].as_str());
        i += 1;
    }
    assert(strings_view(parts@).take(parts.len() as int) =~= strings_view(parts@));
    out
}

/// The path of the event stream of `device_id`: at most 32 events with
/// heartbeats, the interfaces joined with ',' when there are any, and the
/// trimmed cursor when not blank.
pub open spec fn events_path(
    device_id: Seq<char>,
    interfaces: Seq<Seq<char>>,
    cursor: Option<Seq<char>>,
) -> Seq<char> {
    "/api/v1/channel9/devices/"@ + device_id + "/events?limit=32&heartbeat=true"@ + (if interfaces.len()
        > 0 {
        "&interfaces="@ + join(interfaces, ","@)
    } else {
        Seq::empty()
    }) + (match cursor {
        Some(c) => if trim(c).len() > 0 {
            "&cursor="@ + trim(c)
        } else {
            Seq::empty()
        },
        None => Seq::empty(),
    })
}

pub fn device_events_path(device_id: &str, interfaces: &Vec<String>, cursor: Option<&str>) -> (r:
    String)
    ensures
        r@ == events_path(
            device_id@,
            strings_view(interfaces@),
            match cursor {
                Some(c) => Some(c@),
                None => None,
            },
        ),
{
    let mut path = "/api/v1/channel9/devices/".to_owned();
    push_str(&mut path, device_id);
    push_str(&mut path, "/events?limit=32&heartbeat=true");
    let ghost base = path@;
    if interfaces.len() > 0 {
        push_str(&mut path, "&interfaces=");
        let joined = join_strings(interfaces, ",");
        push_str(&mut path, joined.as_str());
    } else {
        assert(path@ =~= base + Seq::<char>::empty());
    }
    let ghost with_interfaces = path@;
    match cursor {
        Some(c) => {
            let trimmed = trim_str(c);
            if trimmed.as_str().unicode_len() > 0 {
                push_str(&mut path, "&cursor=");
                push_str(&mut path, trimmed.as_str());
            } else {
                assert(path@ =~= with_interfaces + Seq::<char>::empty());
            }
        },
        None => {
            assert(path@ =~= with_interfaces + Seq::<char>::empty());
        },
    }
    path
}

impl Channel9HttpClient {
    /// The URL of the event stream of `device_id`.
    pub fn device_events_url(
        &self,
        device_id: &str,
        interfaces: &Vec<String>,
        cursor: Option<&str>,
    ) -> (r: String)
        ensures
            r@ == self@ + events_path(
                device_id@,
                strings_view(interfaces@),
                match cursor {
                    Some(c) => Some(c@),
                    None => None,
                },
            ),
    {
        let path = device_events_path(device_id, interfaces, cursor);
        self.url(path.as_str())
    }
}

/// One block of the event stream: the last "event:" and "data:" values of
/// its lines, trimmed; empty when the block has none.
#[derive(Debug, Clone, PartialEq, Eq)]
pub struct SseFrame {
    pub event: String,
    pub data: String,
}

pub struct FrameView {
    pub event: Seq<char>,
    pub data: Seq<char>,
}

impl View for SseFrame {
    type V = FrameView;

    open spec fn view(&self) -> FrameView {
        FrameView { event: self.event@, data: self.data@ }
    }
}

pub open spec fn frames_view(v: Seq<SseFrame>) -> Seq<FrameView> {
    v.map_values(|f: SseFrame| f@)
}

/// The trimmed rest of the last line that begins with `prefix`, or empty.
pub open spec fn last_field(lines: Seq<Seq<char>>, prefix: Seq<char>) -> Seq<char>
    decreases lines.len(),
{
    if lines.len() == 0 {
        Seq::empty()
    } else if starts_with(lines.last(), prefix) {
        trim(lines.last().skip(prefix.len() as int))
    } else {
        last_field(lines.drop_last(), prefix)
    }
}

/// The frame of one block of the stream; its lines are split at '\n'.
pub open spec fn frame_of(block: Seq<char>) -> FrameView {
    let lines = split(block, seq!['\n']);
    FrameView { event: last_field(lines, "event:"@), data: last_field(lines, "data:"@) }
}

/// The frames of an event-stream body: its blocks are split at blank lines
/// ("\n\n").
pub open spec fn frames_of(body: Seq<char>) -> Seq<FrameView> {
    split(body, seq!['\n', '\n']).map_values(|b: Seq<char>| frame_of(b))
}

fn rest_after(line: &str, n: usize) -> (r: String)
    requires
        n <= line@.len(),
    ensures
        r@ == trim(line@.skip(n as int)),
{
    let rest = substring(line, n, line.unicode_len());
    assert(rest@ =~= line@.skip(n as int));
    trim_str(rest.as_str())
}

fn frame_of_block(block: &str) -> (r: SseFrame)
    ensures
        r@ == frame_of(block@),
{
    proof {
        reveal_strlit("\n");
        reveal_strlit("event:");
        reveal_strlit("data:");
    }
    assert("\n"@ =~= seq!['\n']);
    let lines = split_str(block, "\n");
    let ghost lv = lines@.map_values(|p: String| p@);
    let mut event = String::new();
    let mut data = String::new();
    let mut i: usize = 0;
    while i < lines.len()
        invariant
            lv == lines@.map_values(|p: String| p@),
            lv == split(block@, seq!['\n']),
            "event:"@.len() == 6,
            "data:"@.len() == 5,
            "event:"@[0] == 'e',
            "data:"@[0] == 'd',
            i <= lines.len(),
            event@ == last_field(lv.take(i as int), "event:"@),
            data@ == last_field(lv.take(i as int), "data:"@),
        decreases lines.len() - i,
    {
        let line = lines[i].as_str();
        assert(lv.take(i + 1).drop_last() =~= lv.take(i as int));
        assert(lv.take(i + 1).last() == line@);
        if str_starts_with(line, "event:") {
            assert(line@.take(6)[0] == 'e');
            event = rest_after(line, 6);
        } else if str_starts_with(line, "data:") {
            data = rest_after(line, 5);
        }
        i += 1;
    }
    assert(lv.take(lines.len() as int) =~= lv);
    SseFrame { event, data }
}

/// Splits an event-stream body into its frames.
pub fn sse_frames(body: &str) -> (r: Vec<SseFrame>)
    ensures
        frames_view(r@) == frames_of(body@),
{
    proof {
        reveal_strlit("\n\n");
    }
    assert("\n\n"@ =~= seq!['\n', '\n']);
    let blocks = split_str(body, "\n\n");
    let ghost bv = blocks@.map_values(|p: String| p@);
    let mut frames: Vec<SseFrame> = Vec::new();
    let mut i: usize = 0;
    while i < blocks.len()
        invariant
            bv == blocks@.map_values(|p: String| p@),
            bv == split(body@, seq!['\n', '\n']),
            i <= blocks.len(),
            frames_view(frames@) =~= bv.take(i as int).map_values(|b: Seq<char>| frame_of(b)),
        decreases blocks.len() - i,
    {
        let frame = frame_of_block(blocks[i].as_str());
        frames.push(frame);
        assert(bv.take(i + 1).map_values(|b: Seq<char>| frame_of(b)) =~= bv.take(i as int).map_values(
            |b: Seq<char>| frame_of(b),
        ).push(frame@));
        i += 1;
    }
    assert(bv.take(blocks.len() as int) =~= bv);
    frames
}

impl Channel9HttpClient {
    /// Reads an event-stream reply: its frames, or the HTTP error when the
    /// status is not a success.
    pub fn open_device_events(&self, status: u16, body: &str) -> (r: Result<
        Vec<SseFrame>,
        ClientError,
    >)
        ensures
            match r {
                Ok(frames) => is_success(status) && frames_view(frames@) == frames_of(body@),
                Err(e) => !is_success(status) && e@ == (ClientErrorView::HttpBody {
                    status,
                    detail: body@,
                }),
            },
    {
        if status < 200 || status >= 300 {
            return Err(ClientError::HttpBody { status, detail: body.to_owned() });
        }
        Ok(sse_frames(body))
    }
}

/// The message a "message" event carries.
#[derive(Debug, Clone, PartialEq, Eq)]
pub struct MessageSummary {
    pub message_id: String,
    pub target_interface: Option<String>,
    pub payload: PushPayload,
}

/// The JSON data of a stream event.
#[derive(Debug, Clone, PartialEq, Eq)]
pub struct DeviceEventBody {
    pub event_type: String,
    pub cursor: Option<String>,
    pub message: Option<MessageSummary>,
}

pub struct SummaryView {
    pub message_id: Seq<char>,
    pub target_interface: Option<Seq<char>>,
    pub payload: PushPayloadView,
}

pub struct EventBodyView {
    pub event_type: Seq<char>,
    pub cursor: Option<Seq<char>>,
    pub message: Option<SummaryView>,
}

impl View for MessageSummary {
    type V = SummaryView;

    open spec fn view(&self) -> SummaryView {
        SummaryView {
            message_id: self.message_id@,
            target_interface: opt_string_view(&self.target_interface),
            payload: self.payload@,
        }
    }
}

impl View for DeviceEventBody {
    type V = EventBodyView;

    open spec fn view(&self) -> EventBodyView {
        EventBodyView {
            event_type: self.event_type@,
            cursor: opt_string_view(&self.cursor),
            message: match &self.message {
                Some(m) => Some(m@),
                None => None,
            },
        }
    }
}

pub open spec fn decoded_view(v: Seq<Option<DeviceEventBody>>) -> Seq<Option<EventBodyView>> {
    v.map_values(
        |d: Option<DeviceEventBody>|
            match d {
                Some(b) => Some(b@),
                None => None,
            },
    )
}

/// Does a frame show the stream alive: a heartbeat or a message event.
pub open spec fn frame_connects(f: FrameView) -> bool {
    f.event == "heartbeat"@ || f.event == "message"@
}

/// The message a frame delivers: a "message" event whose data decoded to a
/// "message" body with a cursor and a message.
pub open spec fn frame_message(f: FrameView, decoded: Option<EventBodyView>) -> Option<
    DeviceMessageView,
> {
    if f.event == "message"@ {
        match decoded {
            Some(b) => if b.event_type == "message"@ && b.cursor is Some && b.message is Some {
                let m = b.message->0;
                Some(
                    DeviceMessageView {
                        cursor: b.cursor->0,
                        message_id: m.message_id,
                        target_interface: m.target_interface,
                        payload: m.payload,
                    },
                )
            } else {
                None
            },
            None => None,
        }
    } else {
        None
    }
}

/// The messages of the first `n` frames, in stream order.
pub open spec fn frames_messages(
    frames: Seq<FrameView>,
    decoded: Seq<Option<EventBodyView>>,
    n: int,
) -> Seq<DeviceMessageView>
    decreases n,
{
    if n <= 0 {
        Seq::empty()
    } else {
        let earlier = frames_messages(frames, decoded, n - 1);
        match frame_message(frames[n - 1], decoded[n - 1]) {
            Some(m) => earlier.push(m),
            None => earlier,
        }
    }
}

/// What one fetch of the stream gives: whether any frame showed it alive,
/// and the messages delivered.
pub open spec fn events_of(frames: Seq<FrameView>, decoded: Seq<Option<EventBodyView>>) -> DeviceEventsView {
    DeviceEventsView {
        connected: exists|i: int| 0 <= i < frames.len() && frame_connects(#[trigger] frames[i]),
        messages: frames_messages(frames, decoded, frames.len() as int),
    }
}

fn clone_fields(fields: &Vec<PayloadField>) -> (r: Vec<PayloadField>)
    ensures
        r@.map_values(|f: PayloadField| f@) == fields@.map_values(|f: PayloadField| f@),
{
    let mut out: Vec<PayloadField> = Vec::new();
    let mut i: usize = 0;
    while i < fields.len()
        invariant
            i <= fields.len(),
            out@.map_values(|f: PayloadField| f@) =~= fields@.take(i as int).map_values(
                |f: PayloadField| f@,
            ),
        decreases fields.len() - i,
    {
        let f = PayloadField {
            key: fields[i].key.clone(),
            text: crate::runtime::types::clone_opt_string(&fields[i].text),
        };
        out.push(f);
        assert(fields@.take(i + 1).map_values(|f: PayloadField| f@) =~= fields@.take(
            i as int,
        ).map_values(|f: PayloadField| f@).push(f@));
        i += 1;
    }
    assert(fields@.take(fields.len() as int) =~= fields@);
    out
}

fn clone_payload(p: &PushPayload) -> (r: PushPayload)
    ensures
        r@ == p@,
{
    match p {
        PushPayload::Object(fields) => PushPayload::Object(clone_fields(fields)),
        PushPayload::Text(t) => PushPayload::Text(t.clone()),
        PushPayload::Other => PushPayload::Other,
    }
}

fn message_of_frame(frame: &SseFrame, decoded: &Option<DeviceEventBody>) -> (r: Option<DeviceMessage>)
    ensures
        match r {
            Some(m) => Some(m@),
            None => None,
        } == frame_message(
            frame@,
            match decoded {
                Some(b) => Some(b@),
                None => None,
            },
        ),
{
    proof {
        reveal_strlit("message");
    }
    if !str_eq(frame.event.as_str(), "message") {
        return None;
    }
    match decoded {
        Some(body) => {
            if !str_eq(body.event_type.as_str(), "message") {
                return None;
            }
            match (&body.cursor, &body.message) {
                (Some(cursor), Some(message)) => Some(
                    DeviceMessage {
                        cursor: cursor.clone(),
                        message_id: message.message_id.clone(),
                        target_interface: crate::runtime::types::clone_opt_string(
                            &message.target_interface,
                        ),
                        payload: clone_payload(&message.payload),
                    },
                ),
                _ => None,
            }
        },
        None => None,
    }
}

/// What one fetch of the stream gives, from its frames and the decoded data
/// of each (`None` where the data did not decode or was not read).
pub fn parse_sse_events(frames: &Vec<SseFrame>, decoded: &Vec<Option<DeviceEventBody>>) -> (r:
    DeviceEvents)
    requires
        frames.len() == decoded.len(),
    ensures
        r@ == events_of(frames_view(frames@), decoded_view(decoded@)),
{
    proof {
        reveal_strlit("heartbeat");
        reveal_strlit("message");
    }
    let ghost fv = frames_view(frames@);
    let ghost dv = decoded_view(decoded@);
    let mut connected = false;
    let mut messages: Vec<DeviceMessage> = Vec::new();
    let mut i: usize = 0;
    while i < frames.len()
        invariant
            fv == frames_view(frames@),
            dv == decoded_view(decoded@),
            frames.len() == decoded.len(),
            i <= frames.len(),
            connected == exists|k: int| 0 <= k < i && frame_connects(#[trigger] fv[k]),
            messages@.map_values(|m: DeviceMessage| m@) == frames_messages(fv, dv, i as int),
        decreases frames.len() - i,
    {
        let frame = &frames[i];
        assert(fv[i as int] == frame@);
        assert(dv[i as int] == match decoded@[i as int] {
            Some(b) => Some(b@),
            None => None::<EventBodyView>,
        });
        let event = frame.event.as_str();
        if str_eq(event, "heartbeat") || str_eq(event, "message") {
            connected = true;
        }
        let ghost before = messages@.map_values(|m: DeviceMessage| m@);
        match message_of_frame(frame, &decoded[i]) {
            Some(m) => {
                messages.push(m);
                assert(messages@.map_values(|m: DeviceMessage| m@) =~= before.push(m@));
            },
            None => {},
        }
        proof {
            assert(frame_connects(fv[i as int]) ==> exists|k: int|
                0 <= k < i + 1 && frame_connects(#[trigger] fv[k]));
        }
        i += 1;
    }
    DeviceEvents { connected, messages }
}

/// How many of the first `n` frames deliver a message.
pub open spec fn message_frames_before(
    frames: Seq<FrameView>,
    decoded: Seq<Option<EventBodyView>>,
    n: int,
) -> nat
    decreases n,
{
    if n <= 0 {
        0
    } else {
        message_frames_before(frames, decoded, n - 1) + (if frame_message(frames[n - 1], decoded[n - 1]) is Some {
            1nat
        } else {
            0nat
        })
    }
}

proof fn lemma_message_frames_monotonic(
    frames: Seq<FrameView>,
    decoded: Seq<Option<EventBodyView>>,
    i: int,
    j: int,
)
    requires
        0 <= i <= j,
    ensures
        message_frames_before(frames, decoded, i) <= message_frames_before(frames, decoded, j),
    decreases j - i,
{
    if i < j {
        lemma_message_frames_monotonic(frames, decoded, i, j - 1);
    }
}

proof fn lemma_messages_positions(
    frames: Seq<FrameView>,
    decoded: Seq<Option<EventBodyView>>,
    n: int,
)
    requires
        0 <= n <= frames.len(),
        frames.len() == decoded.len(),
    ensures
        frames_messages(frames, decoded, n).len() == message_frames_before(frames, decoded, n),
        forall|i: int|
            0 <= i < n && frame_message(frames[i], decoded[i]) is Some ==> frames_messages(
                frames,
                decoded,
                n,
            )[message_frames_before(frames, decoded, i) as int] == frame_message(
                frames[i],
                decoded[i],
            )->0,
    decreases n,
{
    if n > 0 {
        lemma_messages_positions(frames, decoded, n - 1);
        assert forall|i: int|
            0 <= i < n && frame_message(frames[i], decoded[i]) is Some implies frames_messages(
                frames,
                decoded,
                n,
            )[message_frames_before(frames, decoded, i) as int] == frame_message(
                frames[i],
                decoded[i],
            )->0 by {
            if i < n - 1 {
                lemma_message_frames_monotonic(frames, decoded, i + 1, n - 1);
            }
        }
    }
}

/// The messages of a fetch come in the order of the frames that carry them:
/// the message of the frame at `i` is at the position given by the number of
/// message frames before it, so a message from an earlier frame always comes
/// before one from a later frame, and there is one message per message
/// frame.
pub proof fn law_messages_in_stream_order(frames: Seq<FrameView>, decoded: Seq<Option<EventBodyView>>)
    requires
        frames.len() == decoded.len(),
    ensures
        events_of(frames, decoded).messages.len() == message_frames_before(
            frames,
            decoded,
            frames.len() as int,
        ),
        forall|i: int|
            0 <= i < frames.len() && frame_message(frames[i], decoded[i]) is Some ==> events_of(
                frames,
                decoded,
            ).messages[message_frames_before(frames, decoded, i) as int] == frame_message(
                frames[i],
                decoded[i],
            )->0,
        forall|i: int, j: int|
            0 <= i < j < frames.len() && frame_message(frames[i], decoded[i]) is Some
                ==> message_frames_before(frames, decoded, i) < message_frames_before(
                frames,
                decoded,
                j,
            ),
{
    lemma_messages_positions(frames, decoded, frames.len() as int);
    assert forall|i: int, j: int|
        0 <= i < j < frames.len() && frame_message(frames[i], decoded[i]) is Some
            implies message_frames_before(frames, decoded, i) < message_frames_before(
            frames,
            decoded,
            j,
        ) by {
        lemma_message_frames_monotonic(frames, decoded, i + 1, j);
    }
}

/// A poll reads as pending only when the API refused it with the code
/// "authorization_pending".
pub proof fn law_pending_only_on_refusal(
    url: Seq<char>,
    status: u16,
    parsed: Result<EnvelopeView<DeviceTokenView>, Seq<char>>,
)
    ensures
        poll_outcome(url, status, parsed) == Ok::<PollTokenView, ClientErrorView>(
            PollTokenView::Pending,
        ) ==> match parsed {
            Ok(e) => !e.ok && refusal_of(e.error) == (ClientErrorView::Api {
                code: "authorization_pending"@,
                message: match e.error {
                    Some(b) => b.message,
                    None => default_error_view().message,
                },
            }),
            Err(_) => false,
        },
{
}

/// A successful reply with its data gives that data, for device codes and
/// tokens alike.
pub proof fn law_success_gives_data(
    url: Seq<char>,
    status: u16,
    code: DeviceCodeView,
    token: DeviceTokenView,
)
    requires
        is_success(status),
    ensures
        device_code_outcome(url, status, Ok(EnvelopeView { ok: true, data: Some(code), error: None }))
            == Ok::<DeviceCodeView, ClientErrorView>(code),
        poll_outcome(url, status, Ok(EnvelopeView { ok: true, data: Some(token), error: None }))
            == Ok::<PollTokenView, ClientErrorView>(PollTokenView::Approved(token)),
{
}

proof fn lemma_trailing_slashes_gone(s: Seq<char>)
    ensures
        without_trailing_slashes(s).len() == 0 || without_trailing_slashes(s).last() != '/',
        without_trailing_slashes(without_trailing_slashes(s)) == without_trailing_slashes(s),
    decreases s.len(),
{
    if s.len() > 0 && s.last() == '/' {
        lemma_trailing_slashes_gone(s.drop_last());
    }
}

/// A client's base URL never ends with '/', and trimming it again changes
/// nothing.
pub proof fn law_base_url_trimmed(api_base_url: Seq<char>)
    ensures
        without_trailing_slashes(api_base_url).len() == 0 || without_trailing_slashes(
            api_base_url,
        ).last() != '/',
        without_trailing_slashes(without_trailing_slashes(api_base_url)) == without_trailing_slashes(
            api_base_url,
        ),
{
    lemma_trailing_slashes_gone(api_base_url);
}

} // verus!
