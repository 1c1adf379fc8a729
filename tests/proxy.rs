use std::collections::BTreeMap;

use seal_proxy::allowers::{BearerTokenProvider, ConfigError};
use seal_proxy::config::{
    is_none, is_push_interval_default, listen_address_default, metrics_address_default,
    mimir_url_default, pool_max_idle_per_host_default, push_interval, BearerTokenConfig,
    BearerTokenConfigItem, ProxyConfig,
};
use seal_proxy::handlers::{
    convert_headers, convert_method, header_value_valid, outbound_request, relay_reply, GatewayError, Header, Method,
    RelayMethod, UpstreamOutcome,
};
use seal_proxy::middleware::{
    bearer_token_of, expect_valid_bearer_token, screen_request, Rejection, MAX_BODY_SIZE,
};
use seal_proxy::runtime::{
    frame_payload, push_body, push_succeeded, MetricPayload, PushSchedule, PushStep,
};

fn allower(tokens: &[&str]) -> BearerTokenProvider {
    let cfg = BearerTokenConfig {
        items: tokens
            .iter()
            .map(|t| BearerTokenConfigItem { bearer_token: t.to_string(), name: "node".to_string() })
            .collect(),
    };
    BearerTokenProvider::new(Some(Ok(cfg))).ok().unwrap().unwrap()
}

fn header(name: &[u8], value: &[u8]) -> Header {
    Header { name: name.to_vec(), value: value.to_vec() }
}

fn pairs(hs: &[Header]) -> Vec<(Vec<u8>, Vec<u8>)> {
    hs.iter().map(|h| (h.name.clone(), h.value.clone())).collect()
}

#[test]
fn allower_absent_without_source() {
    assert!(matches!(BearerTokenProvider::new(None), Ok(None)));
}

#[test]
fn allower_source_error_is_fatal() {
    assert!(matches!(
        BearerTokenProvider::new(Some(Err(ConfigError::Malformed))),
        Err(ConfigError::Malformed)
    ));
    assert!(matches!(
        BearerTokenProvider::new(Some(Err(ConfigError::Unreadable))),
        Err(ConfigError::Unreadable)
    ));
}

#[test]
fn allower_membership_is_exact() {
    let g = allower(&["abc123", "other"]);
    assert!(g.allowed(&"abc123".to_string()));
    assert!(g.allowed(&"other".to_string()));
    assert!(!g.allowed(&"ABC123".to_string()));
    assert!(!g.allowed(&"abc12".to_string()));
    assert!(!g.allowed(&"abc1234".to_string()));
    assert!(!g.allowed(&"".to_string()));
}

#[test]
fn empty_allower_accepts_nothing() {
    let g = allower(&[]);
    assert!(!g.allowed(&"abc123".to_string()));
}

#[test]
fn bearer_prefix_is_stripped() {
    assert_eq!(bearer_token_of("Bearer abc123"), Some("abc123".to_string()));
    assert_eq!(bearer_token_of("Bearer "), Some("".to_string()));
    assert_eq!(bearer_token_of("bearer abc123"), None);
    assert_eq!(bearer_token_of("Basic abc123"), None);
    assert_eq!(bearer_token_of("Bearer"), None);
    assert_eq!(bearer_token_of(""), None);
}

#[test]
fn token_example_scenario() {
    let g = Some(allower(&["abc123"]));
    assert!(matches!(screen_request(&g, MAX_BODY_SIZE, 10, None), Err(Rejection::Unauthorized)));
    assert!(matches!(screen_request(&g, MAX_BODY_SIZE, 10, Some("Bearer abc123")), Ok(())));
    assert!(matches!(
        screen_request(&g, MAX_BODY_SIZE, 10, Some("Bearer abc124")),
        Err(Rejection::Unauthorized)
    ));
    assert!(matches!(
        screen_request(&g, MAX_BODY_SIZE, 10, Some("abc123")),
        Err(Rejection::Unauthorized)
    ));
}

#[test]
fn bearer_check_on_allower() {
    let g = allower(&["abc123"]);
    assert!(expect_valid_bearer_token(&g, Some("Bearer abc123")));
    assert!(!expect_valid_bearer_token(&g, Some("Bearer  abc123")));
    assert!(!expect_valid_bearer_token(&g, None));
}

#[test]
fn no_allower_passes_auth_stage() {
    assert!(matches!(screen_request(&None, MAX_BODY_SIZE, 10, None), Ok(())));
    assert!(matches!(screen_request(&None, MAX_BODY_SIZE, 10, Some("junk")), Ok(())));
}

#[test]
fn body_size_limit() {
    let g = Some(allower(&["abc123"]));
    assert_eq!(MAX_BODY_SIZE, 5 * 1024 * 1024);
    assert!(matches!(
        screen_request(&g, MAX_BODY_SIZE, MAX_BODY_SIZE, Some("Bearer abc123")),
        Ok(())
    ));
    assert!(matches!(
        screen_request(&g, MAX_BODY_SIZE, MAX_BODY_SIZE + 1, Some("Bearer abc123")),
        Err(Rejection::PayloadTooLarge)
    ));
    assert!(matches!(
        screen_request(&None, MAX_BODY_SIZE, MAX_BODY_SIZE + 1, None),
        Err(Rejection::PayloadTooLarge)
    ));
    assert_eq!(Rejection::PayloadTooLarge.status(), 413);
    assert_eq!(Rejection::Unauthorized.status(), 401);
}

#[test]
fn invalid_headers_are_dropped() {
    let hs = vec![
        header(b"content-type", b"application/x-protobuf"),
        header(b"bad name", b"v"),
        header(b"x-ok", b"tab\there"),
        header(b"x-ctl", b"a\x7fb"),
        header(b"x-nl", b"a\nb"),
        header(b"x-high", b"caf\xc3\xa9"),
    ];
    let out = convert_headers(&hs);
    assert_eq!(
        pairs(&out),
        vec![
            (b"content-type".to_vec(), b"application/x-protobuf".to_vec()),
            (b"x-ok".to_vec(), b"tab\there".to_vec()),
            (b"x-high".to_vec(), b"caf\xc3\xa9".to_vec()),
        ]
    );
}

#[test]
fn header_translation_idempotent() {
    let hs = vec![header(b"a", b"1"), header(b"", b"2"), header(b"b", b"\x00"), header(b"a", b"3")];
    let once = convert_headers(&hs);
    let twice = convert_headers(&once);
    assert_eq!(pairs(&once), pairs(&twice));
    assert_eq!(pairs(&once), vec![(b"a".to_vec(), b"1".to_vec()), (b"a".to_vec(), b"3".to_vec())]);
}

#[test]
fn outbound_keeps_body_and_url() {
    let body: Vec<u8> = (0..=255u8).collect();
    let url = mimir_url_default();
    let req = outbound_request(&Method::Post, &url, &vec![header(b"x-a", b"1")], body.clone());
    assert!(matches!(req.method, RelayMethod::Post));
    assert_eq!(req.url, url);
    assert_eq!(req.body, body);
    assert_eq!(pairs(&req.headers), vec![(b"x-a".to_vec(), b"1".to_vec())]);
}

#[test]
fn supported_methods_map_to_themselves() {
    assert!(matches!(convert_method(&Method::Get), RelayMethod::Get));
    assert!(matches!(convert_method(&Method::Post), RelayMethod::Post));
    assert!(matches!(convert_method(&Method::Put), RelayMethod::Put));
    assert!(matches!(convert_method(&Method::Delete), RelayMethod::Delete));
    assert!(matches!(convert_method(&Method::Head), RelayMethod::Head));
}

#[test]
fn upstream_error_status_passes_through() {
    let r = relay_reply(UpstreamOutcome::Replied { status: 503, body: "busy".to_string() });
    assert!(matches!(r, Ok((503, ref b)) if b == "busy"));
    let r = relay_reply(UpstreamOutcome::Replied { status: 200, body: "".to_string() });
    assert!(matches!(r, Ok((200, ref b)) if b.is_empty()));
}

#[test]
fn upstream_unreachable_is_bad_gateway() {
    for outcome in [
        UpstreamOutcome::SendFailed,
        UpstreamOutcome::BodyReadFailed,
        UpstreamOutcome::ReplyUnreadable,
    ] {
        let r = relay_reply(outcome);
        assert!(matches!(r, Err(GatewayError::BadGateway)));
    }
    assert_eq!(GatewayError::BadGateway.status(), 502);
    // the relay serves the next request as before
    let r = relay_reply(UpstreamOutcome::Replied { status: 200, body: "ok".to_string() });
    assert!(matches!(r, Ok((200, _))));
}

#[test]
fn payload_framing() {
    let buf = b"[1,2]".to_vec();
    assert_eq!(frame_payload(&None, &buf), b"{\"buf\":[1,2]}".to_vec());
    let labels = Some(b"{\"a\":\"b\"}".to_vec());
    assert_eq!(frame_payload(&labels, &buf), b"{\"labels\":{\"a\":\"b\"},\"buf\":[1,2]}".to_vec());
}

#[test]
fn push_body_is_compressed_json() {
    let mut labels = BTreeMap::new();
    labels.insert("network".to_string(), "testnet".to_string());
    labels.insert("host".to_string(), "h1".to_string());
    let payload = MetricPayload { labels: Some(labels), buf: vec![1, 2, 3] };
    let body = push_body(&payload).ok().unwrap();
    let json = snap::raw::Decoder::new().decompress_vec(&body).unwrap();
    assert_eq!(
        String::from_utf8(json).unwrap(),
        "{\"labels\":{\"host\":\"h1\",\"network\":\"testnet\"},\"buf\":[1,2,3]}"
    );
    let payload = MetricPayload { labels: None, buf: vec![] };
    let body = push_body(&payload).ok().unwrap();
    let json = snap::raw::Decoder::new().decompress_vec(&body).unwrap();
    assert_eq!(String::from_utf8(json).unwrap(), "{\"buf\":[]}");
}

#[test]
fn push_status_success_range() {
    assert!(push_succeeded(200));
    assert!(push_succeeded(204));
    assert!(push_succeeded(299));
    assert!(!push_succeeded(199));
    assert!(!push_succeeded(300));
    assert!(!push_succeeded(500));
}

#[test]
fn schedule_ticks_and_waits() {
    let mut s = PushSchedule::new(0, 1000);
    assert!(matches!(s.on_wake(0, false), PushStep::Push));
    assert!(matches!(s.on_wake(500, false), PushStep::Wait { until_ms: 1000 }));
    assert!(matches!(s.on_wake(1000, false), PushStep::Push));
    assert!(matches!(s.on_wake(1999, false), PushStep::Wait { until_ms: 2000 }));
}

#[test]
fn missed_ticks_are_skipped() {
    let mut s = PushSchedule::new(0, 1000);
    assert!(matches!(s.on_wake(0, false), PushStep::Push));
    // the push took 2.5 intervals: the ticks at 1000, 2000 and 3000 are skipped
    assert!(matches!(s.on_wake(2500, false), PushStep::Push));
    assert!(matches!(s.on_wake(3000, false), PushStep::Wait { until_ms: 4000 }));
    assert!(matches!(s.on_wake(3499, false), PushStep::Wait { until_ms: 4000 }));
    assert!(matches!(s.on_wake(4000, false), PushStep::Push));
}

#[test]
fn cancellation_before_tick_exits() {
    let mut s = PushSchedule::new(0, 60_000);
    assert!(matches!(s.on_wake(0, false), PushStep::Push));
    assert!(matches!(s.on_wake(10, true), PushStep::Exit));
    assert!(s.is_cancelled());
    assert!(matches!(s.on_wake(60_000, false), PushStep::Exit));
}

#[test]
fn failures_rebuild_client_and_continue() {
    let mut s = PushSchedule::new(0, 1000);
    let mut now: u64 = 0;
    for n in 1..=5u64 {
        assert!(matches!(s.on_wake(now, false), PushStep::Push));
        assert!(s.on_push_result(false));
        assert_eq!(s.consecutive_failures(), n);
        now += 1000;
    }
    assert!(matches!(s.on_wake(now, false), PushStep::Push));
    assert!(!s.on_push_result(true));
    assert_eq!(s.consecutive_failures(), 0);
    assert!(!s.is_cancelled());
}

#[test]
fn config_defaults() {
    assert_eq!(pool_max_idle_per_host_default(), 8);
    assert_eq!(mimir_url_default(), "http://localhost:9000/api/v1/metrics/write");
    assert_eq!(listen_address_default(), "0.0.0.0:8000");
    assert_eq!(metrics_address_default(), "0.0.0.0:9185");
    let c = ProxyConfig::with_defaults();
    assert_eq!(c.pool_max_idle_per_host, 8);
    assert_eq!(c.listen_address, "0.0.0.0:8000");
    assert_eq!(push_interval(), 60);
    assert!(is_push_interval_default(&60));
    assert!(!is_push_interval_default(&30));
    assert!(is_none::<u8>(&None));
    assert!(!is_none(&Some(1)));
}

#[test]
fn header_name_rules() {
    let long_ok = vec![b'a'; 65535];
    let too_long = vec![b'a'; 65536];
    let hs = vec![
        header(b"X-Custom-Header", b"1"),
        header(&long_ok, b"2"),
        header(&too_long, b"3"),
        header(b"x:y", b"4"),
        header(b"caf\xc3\xa9", b"5"),
        header(b"!#$%&'*+-.^_`|~09", b"6"),
    ];
    let out = convert_headers(&hs);
    let values: Vec<Vec<u8>> = out.iter().map(|h| h.value.clone()).collect();
    assert_eq!(values, vec![b"1".to_vec(), b"2".to_vec(), b"6".to_vec()]);
}

#[test]
fn header_value_rules() {
    assert!(header_value_valid(&b"".to_vec()));
    assert!(header_value_valid(&b" visible ~ \t\x80\xff".to_vec()));
    assert!(!header_value_valid(&b"a\rb".to_vec()));
    assert!(!header_value_valid(&b"\x1f".to_vec()));
    assert!(!header_value_valid(&b"\x7f".to_vec()));
}

#[test]
fn push_body_bytes_in_decimal() {
    let payload = MetricPayload { labels: None, buf: vec![0, 7, 10, 99, 100, 255] };
    let body = push_body(&payload).ok().unwrap();
    let json = snap::raw::Decoder::new().decompress_vec(&body).unwrap();
    assert_eq!(String::from_utf8(json).unwrap(), "{\"buf\":[0,7,10,99,100,255]}");
}

#[test]
fn clock_at_end_of_range_waits() {
    let mut s = PushSchedule::new(0, 1000);
    assert!(matches!(s.on_wake(u64::MAX - 1500, false), PushStep::Wait { until_ms: u64::MAX }));
    assert!(matches!(s.on_wake(u64::MAX - 2000, false), PushStep::Push));
    assert!(matches!(s.on_wake(u64::MAX, true), PushStep::Exit));
}
