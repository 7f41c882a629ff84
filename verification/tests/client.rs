use channel9::client::{
    accept_response_chunk, default_api_error, device_events_path, endpoint_host,
    event_stream_headers, post_headers,
    non_empty_description, parse_sse_events, sse_frames, trim_base_url, user_agent, ApiEnvelope,
    ApiErrorBody, ApiReply, Channel9HttpClient, ClientError, DeviceEventBody, MessageSummary,
    SseFrame, MAX_RESPONSE_BYTES,
};
use channel9::runtime::types::{DeviceCode, DeviceToken, PayloadField, PollToken, PushPayload};

fn client() -> Channel9HttpClient {
    Channel9HttpClient::new("https://api.example.com//".to_string())
}

fn code() -> DeviceCode {
    DeviceCode {
        device_code: "dc-1".to_string(),
        user_code: "ABCD-1234".to_string(),
        verification_uri: "https://example.com/device".to_string(),
        verification_uri_complete: "https://example.com/device?code=ABCD-1234".to_string(),
        expires_at: 100,
        activation_expires_at: 200,
        interval_seconds: 5,
    }
}

fn token() -> DeviceToken {
    DeviceToken {
        access_token: "token".to_string(),
        token_type: "Bearer".to_string(),
        expires_at: 456,
        workspace_id: "workspace".to_string(),
        device_id: "device-server".to_string(),
    }
}

fn envelope<T>(ok: bool, data: Option<T>, error: Option<ApiErrorBody>) -> ApiEnvelope<T> {
    ApiEnvelope { ok, data, error }
}

#[test]
fn base_url_loses_trailing_slashes() {
    assert_eq!(client().api_base_url(), "https://api.example.com");
    assert_eq!(trim_base_url("http://x/".to_string()), "http://x");
    assert_eq!(trim_base_url("".to_string()), "");
    assert_eq!(client().url("/health"), "https://api.example.com/health");
    assert_eq!(user_agent(), "channel9os/0.1");
}

#[test]
fn device_code_request_trims_description() {
    let interfaces = vec!["display".to_string()];
    let post = client().create_device_code_request("device-a", "  Kitchen  ", &interfaces);
    assert_eq!(post.url, "https://api.example.com/api/v1/channel9/device-codes");
    assert_eq!(post.body.device_id, "device-a");
    assert_eq!(post.body.description, Some("Kitchen".to_string()));
    assert_eq!(post.body.interfaces, interfaces);
    let blank = client().create_device_code_request("device-a", "   ", &interfaces);
    assert_eq!(blank.body.description, None);
    assert_eq!(non_empty_description(" x "), Some("x".to_string()));
}

#[test]
fn device_code_reply_success_gives_code() {
    let reply = ApiReply { status: 200, parsed: Ok(envelope(true, Some(code()), None)) };
    assert_eq!(client().create_device_code(reply), Ok(code()));
}

#[test]
fn device_code_reply_errors() {
    let c = client();
    let http = c.create_device_code(ApiReply {
        status: 500,
        parsed: Ok(envelope(true, Some(code()), None)),
    });
    assert_eq!(http, Err(ClientError::Http { status: 500 }));
    assert_eq!(http.unwrap_err().message(), "Channel9 request failed with HTTP 500");

    let body = c.create_device_code(ApiReply { status: 400, parsed: Err("bad".to_string()) });
    assert_eq!(
        body.clone().unwrap_err().message(),
        "Channel9 request failed with HTTP 400: bad"
    );

    let parse = c.create_device_code(ApiReply { status: 200, parsed: Err("eof".to_string()) });
    assert_eq!(
        parse,
        Err(ClientError::Parse {
            url: "https://api.example.com/api/v1/channel9/device-codes".to_string(),
            detail: "eof".to_string(),
        })
    );
    assert_eq!(
        parse.unwrap_err().message(),
        "failed to parse Channel9 response from https://api.example.com/api/v1/channel9/device-codes"
    );

    let missing = c.create_device_code(ApiReply { status: 200, parsed: Ok(envelope(true, None, None)) });
    assert_eq!(missing, Err(ClientError::MissingData));
    assert_eq!(missing.unwrap_err().message(), "Channel9 response missing data");

    let refused = c.create_device_code(ApiReply {
        status: 400,
        parsed: Ok(envelope(false, None, None)),
    });
    assert_eq!(
        refused.unwrap_err().message(),
        "channel9_request_failed: Channel9 request failed"
    );
    assert_eq!(default_api_error().code, "channel9_request_failed");
}

#[test]
fn token_poll_pending_and_approved() {
    let c = client();
    let pending = c.poll_device_token(ApiReply {
        status: 400,
        parsed: Ok(envelope(
            false,
            None,
            Some(ApiErrorBody {
                code: "authorization_pending".to_string(),
                message: "wait".to_string(),
            }),
        )),
    });
    assert_eq!(pending, Ok(PollToken::Pending));

    let denied = c.poll_device_token(ApiReply {
        status: 400,
        parsed: Ok(envelope(
            false,
            None,
            Some(ApiErrorBody { code: "access_denied".to_string(), message: "no".to_string() }),
        )),
    });
    assert_eq!(
        denied,
        Err(ClientError::Api { code: "access_denied".to_string(), message: "no".to_string() })
    );

    let approved =
        c.poll_device_token(ApiReply { status: 200, parsed: Ok(envelope(true, Some(token()), None)) });
    assert_eq!(approved, Ok(PollToken::Approved(token())));

    let post = c.poll_device_token_request("dc-1");
    assert_eq!(post.url, "https://api.example.com/api/v1/channel9/device-codes/token");
    assert_eq!(post.body.device_code, "dc-1");
}

#[test]
fn error_messages() {
    assert_eq!(
        ClientError::Connect { url: "https://h/x".to_string() }.message(),
        "failed to connect to Channel9 HTTPS endpoint https://h/x; check WiFi IP, DNS, TLS time, and server reachability"
    );
    assert_eq!(ClientError::TooLarge.message(), "Channel9 response exceeded 16384 bytes");
    assert_eq!(ClientError::WriteFailed.message(), "failed to write Channel9 request body");
    assert_eq!(ClientError::Transport { detail: "reset".to_string() }.message(), "reset");
}

#[test]
fn response_chunks_are_capped() {
    let mut body = vec![0u8; MAX_RESPONSE_BYTES - 4];
    assert_eq!(accept_response_chunk(&mut body, &[1, 2, 3, 4]), Ok(()));
    assert_eq!(body.len(), MAX_RESPONSE_BYTES);
    assert_eq!(&body[MAX_RESPONSE_BYTES - 4..], &[1, 2, 3, 4]);
    assert_eq!(accept_response_chunk(&mut body, &[5]), Err(ClientError::TooLarge));
    assert_eq!(body.len(), MAX_RESPONSE_BYTES);
}

#[test]
fn endpoint_host_strips_scheme_and_path() {
    assert_eq!(endpoint_host("https://api.example.com/v1"), Some("api.example.com".to_string()));
    assert_eq!(endpoint_host("http://host:8080"), Some("host:8080".to_string()));
    assert_eq!(endpoint_host("plain/x"), Some("plain".to_string()));
    assert_eq!(endpoint_host("https:///x"), None);
    assert_eq!(endpoint_host(""), None);
}

#[test]
fn events_path_and_url() {
    let interfaces = vec!["display".to_string(), "audio".to_string()];
    assert_eq!(
        device_events_path("dev", &interfaces, Some(" c1 ")),
        "/api/v1/channel9/devices/dev/events?limit=32&heartbeat=true&interfaces=display,audio&cursor=c1"
    );
    assert_eq!(
        device_events_path("dev", &Vec::new(), None),
        "/api/v1/channel9/devices/dev/events?limit=32&heartbeat=true"
    );
    assert_eq!(
        device_events_path("dev", &Vec::new(), Some("   ")),
        "/api/v1/channel9/devices/dev/events?limit=32&heartbeat=true"
    );
    assert_eq!(
        client().device_events_url("dev", &Vec::new(), None),
        "https://api.example.com/api/v1/channel9/devices/dev/events?limit=32&heartbeat=true"
    );
}

#[test]
fn sse_body_splits_into_frames() {
    let frames = sse_frames("event: heartbeat\ndata: {}\n\nevent: message\ndata:  {\"a\":1} \n\n");
    assert_eq!(
        frames,
        vec![
            SseFrame { event: "heartbeat".to_string(), data: "{}".to_string() },
            SseFrame { event: "message".to_string(), data: "{\"a\":1}".to_string() },
            SseFrame { event: String::new(), data: String::new() },
        ]
    );
    assert_eq!(
        client().open_device_events(503, "busy"),
        Err(ClientError::HttpBody { status: 503, detail: "busy".to_string() })
    );
    assert_eq!(client().open_device_events(200, "event: heartbeat").unwrap().len(), 1);
}

#[test]
fn sse_events_collect_messages() {
    let frames = vec![
        SseFrame { event: "heartbeat".to_string(), data: String::new() },
        SseFrame { event: "message".to_string(), data: "x".to_string() },
        SseFrame { event: "message".to_string(), data: "y".to_string() },
    ];
    let payload = PushPayload::Object(vec![PayloadField {
        key: "title".to_string(),
        text: Some("Hello".to_string()),
    }]);
    let decoded = vec![
        None,
        Some(DeviceEventBody {
            event_type: "message".to_string(),
            cursor: Some("c-2".to_string()),
            message: Some(MessageSummary {
                message_id: "m-1".to_string(),
                target_interface: Some("display".to_string()),
                payload: payload.clone(),
            }),
        }),
        Some(DeviceEventBody {
            event_type: "message".to_string(),
            cursor: None,
            message: None,
        }),
    ];
    let events = parse_sse_events(&frames, &decoded);
    assert!(events.connected);
    assert_eq!(events.messages.len(), 1);
    assert_eq!(events.messages[0].cursor, "c-2");
    assert_eq!(events.messages[0].message_id, "m-1");
    assert_eq!(events.messages[0].payload, payload);

    let quiet = parse_sse_events(
        &vec![SseFrame { event: String::new(), data: String::new() }],
        &vec![None],
    );
    assert!(!quiet.connected);
    assert!(quiet.messages.is_empty());
}

fn pairs(headers: &[(String, String)]) -> Vec<(&str, &str)> {
    headers.iter().map(|(n, v)| (n.as_str(), v.as_str())).collect()
}

#[test]
fn request_headers() {
    assert_eq!(
        pairs(&post_headers(57)),
        vec![
            ("content-type", "application/json"),
            ("content-length", "57"),
            ("user-agent", "channel9os/0.1"),
        ]
    );
    assert_eq!(
        pairs(&event_stream_headers("tok-1")),
        vec![
            ("accept", "text/event-stream"),
            ("user-agent", "channel9os/0.1"),
            ("authorization", "Bearer tok-1"),
        ]
    );
}
