use airbrake_sender::{
    parse_proxy, read_response, Config, RetryPolicy, SendError, Step, SyncSender,
    DEFAULT_PROXY_PORT, DEFAULT_RETRY_TIMEOUT_MS,
};
use serde_json::Value;

fn config(endpoint: &str, proxy: &str, max_retry: Option<u32>, retry_timeout_ms: Option<u64>) -> Config {
    Config {
        endpoint: endpoint.to_string(),
        proxy: proxy.to_string(),
        max_retry,
        retry_timeout_ms,
    }
}

/// Runs the retry decisions over the outcomes that attempts would give, as a
/// caller does, and returns the attempts made, the delays waited and the
/// result handed back.
fn drive(policy: RetryPolicy, outcomes: &[Result<u32, SendError>]) -> (usize, Vec<u64>, Result<u32, SendError>) {
    let mut attempt: u32 = 0;
    let mut made = 0;
    let mut delays = Vec::new();
    loop {
        let r = outcomes[attempt as usize];
        made += 1;
        match policy.after_attempt(attempt, r.is_ok()) {
            Step::Finish => return (made, delays, r),
            Step::Retry { delay_ms, next_attempt } => {
                delays.push(delay_ms);
                attempt = next_attempt;
            }
        }
    }
}

#[test]
fn empty_proxy_means_direct_connection() {
    assert!(parse_proxy("").unwrap().is_none());
    let sender = SyncSender::new(&config("https://example.com/notices", "", None, None)).unwrap();
    assert!(sender.proxy().is_none());
    assert_eq!(sender.endpoint(), "https://example.com/notices");
}

#[test]
fn proxy_with_port() {
    let t = parse_proxy("proxy.local:3128").unwrap().unwrap();
    assert_eq!(t.host, "proxy.local");
    assert_eq!(t.port, 3128);
}

#[test]
fn proxy_without_port_uses_80() {
    let t = parse_proxy("proxy.local").unwrap().unwrap();
    assert_eq!(t.host, "proxy.local");
    assert_eq!(t.port, DEFAULT_PROXY_PORT);
    assert_eq!(t.port, 80);
}

#[test]
fn proxy_split_at_last_colon() {
    let t = parse_proxy("a:b:8080").unwrap().unwrap();
    assert_eq!(t.host, "a:b");
    assert_eq!(t.port, 8080);
}

#[test]
fn proxy_port_with_plus_sign() {
    let t = parse_proxy("h:+81").unwrap().unwrap();
    assert_eq!(t.port, 81);
}

#[test]
fn malformed_proxy_port_is_refused() {
    let e = parse_proxy("proxy:abc").unwrap_err();
    assert_eq!(e.proxy, "proxy:abc");
    assert!(SyncSender::new(&config("https://example.com/", "proxy:abc", None, None)).is_err());
}

#[test]
fn proxy_edge_ports() {
    assert!(parse_proxy("h:").is_err());
    assert!(parse_proxy("h:65536").is_err());
    assert!(parse_proxy("h:-1").is_err());
    assert!(parse_proxy("h: 80").is_err());
    assert_eq!(parse_proxy("h:65535").unwrap().unwrap().port, 65535);
    assert_eq!(parse_proxy(":0").unwrap().unwrap().host, "");
}

#[test]
fn proxied_sender_keeps_target() {
    let sender = SyncSender::new(&config("https://example.com/", "10.0.0.1:8080", Some(3), Some(5))).unwrap();
    let t = sender.proxy().unwrap();
    assert_eq!(t.host, "10.0.0.1");
    assert_eq!(t.port, 8080);
    assert_eq!(sender.policy(), RetryPolicy { max_retry: 3, retry_timeout_ms: 5 });
}

#[test]
fn policy_defaults() {
    let p = RetryPolicy::from_options(None, None);
    assert_eq!(p.max_retry, 0);
    assert_eq!(p.retry_timeout_ms, DEFAULT_RETRY_TIMEOUT_MS);
    assert_eq!(p.retry_timeout_ms, 1000);
    let p = RetryPolicy::from_options(Some(2), None);
    assert_eq!(p, RetryPolicy { max_retry: 2, retry_timeout_ms: 1000 });
}

#[test]
fn after_attempt_decisions() {
    let p = RetryPolicy { max_retry: 2, retry_timeout_ms: 10 };
    assert_eq!(p.after_attempt(0, true), Step::Finish);
    assert_eq!(p.after_attempt(0, false), Step::Retry { delay_ms: 10, next_attempt: 1 });
    assert_eq!(p.after_attempt(1, false), Step::Retry { delay_ms: 10, next_attempt: 2 });
    assert_eq!(p.after_attempt(2, false), Step::Finish);
}

#[test]
fn no_retry_makes_one_attempt() {
    let p = RetryPolicy::from_options(None, None);
    let (made, delays, r) = drive(p, &[Err(SendError::Network)]);
    assert_eq!(made, 1);
    assert!(delays.is_empty());
    assert_eq!(r, Err(SendError::Network));
    let (made, _, r) = drive(p, &[Ok(7)]);
    assert_eq!(made, 1);
    assert_eq!(r, Ok(7));
}

#[test]
fn persistent_failure_makes_n_plus_one_attempts() {
    let p = RetryPolicy::from_options(Some(3), None);
    let outcomes = [Err(SendError::Url), Err(SendError::Io), Err(SendError::Network), Err(SendError::Parse)];
    let (made, delays, r) = drive(p, &outcomes);
    assert_eq!(made, 4);
    assert_eq!(delays, vec![1000, 1000, 1000]);
    assert_eq!(r, Err(SendError::Parse));
}

#[test]
fn success_stops_retrying() {
    let p = RetryPolicy::from_options(Some(5), Some(3));
    let outcomes = [Err(SendError::Network), Ok(1), Ok(2), Ok(3), Ok(4), Ok(5)];
    let (made, delays, r) = drive(p, &outcomes);
    assert_eq!(made, 2);
    assert_eq!(delays, vec![3]);
    assert_eq!(r, Ok(1));
}

#[test]
fn two_failures_then_success() {
    let p = RetryPolicy::from_options(Some(2), Some(10));
    let ok = read_response("{\"ok\":true}").map(|_| 3);
    let outcomes = [Err(SendError::Network), Err(SendError::Network), ok];
    let (made, delays, r) = drive(p, &outcomes);
    assert_eq!(made, 3);
    assert_eq!(delays, vec![10, 10]);
    assert!(delays.iter().sum::<u64>() >= 20);
    assert_eq!(r, Ok(3));

    let mut expected = serde_json::Map::new();
    expected.insert("ok".to_string(), Value::Bool(true));
    assert_eq!(read_response("{\"ok\":true}").unwrap(), Value::Object(expected));
}

#[test]
fn non_json_body_fails_and_is_retried() {
    assert_eq!(read_response(""), Err(SendError::Parse));
    assert_eq!(read_response("not json"), Err(SendError::Parse));
    let p = RetryPolicy::from_options(Some(1), Some(10));
    assert_eq!(p.after_attempt(0, read_response("not json").is_ok()), Step::Retry { delay_ms: 10, next_attempt: 1 });
    assert_eq!(p.after_attempt(0, read_response("").is_ok()), Step::Retry { delay_ms: 10, next_attempt: 1 });
}

#[test]
fn echoed_notice_round_trips() {
    let payload = "{\"error\":\"x\"}";
    let mut expected = serde_json::Map::new();
    expected.insert("error".to_string(), Value::String("x".to_string()));
    assert_eq!(read_response(payload).unwrap(), Value::Object(expected));
}

#[test]
fn scalar_json_bodies_are_accepted() {
    assert_eq!(read_response("42").unwrap(), Value::from(42));
    assert_eq!(read_response(" null ").unwrap(), Value::Null);
}

#[test]
fn malformed_endpoint_fails_at_send_time() {
    let sender = SyncSender::new(&config("not a url", "", None, None)).unwrap();
    assert!(matches!(sender.target_url(), Err(SendError::Url)));
    let sender = SyncSender::new(&config("", "", None, None)).unwrap();
    assert!(matches!(sender.target_url(), Err(SendError::Url)));
}

#[test]
fn valid_endpoint_parses() {
    let sender = SyncSender::new(&config("https://api.example.com/api/v3/projects/1/notices?key=k", "", None, None)).unwrap();
    let url = sender.target_url().unwrap();
    assert_eq!(url.host_str(), Some("api.example.com"));
    assert_eq!(url.scheme(), "https");
}

#[test]
fn client_connection_target_follows_proxy_setting() {
    let direct = SyncSender::new(&config("https://example.com/", "", None, None)).unwrap();
    assert!(format!("{:?}", direct.client()).contains("proxy: None"));
    let proxied = SyncSender::new(&config("https://example.com/", "10.0.0.1:8080", None, None)).unwrap();
    let shown = format!("{:?}", proxied.client());
    assert!(shown.contains("\"10.0.0.1\""));
    assert!(shown.contains("8080"));
}
