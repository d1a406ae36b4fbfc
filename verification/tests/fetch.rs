use pachong::profile::FetchError;
use pachong::profile::ProfileRecord;
use pachong::profile::fetch_profile;
use pachong::profile::resolve_fetch;
use pachong::transport::ProxyEndpoint;
use pachong::transport::build_client;

#[test]
fn resolve_fetch_passes_transport_failure_on() {
    let r = resolve_fetch(Err("connection refused".to_string()));
    match r {
        Err(FetchError::Transport(details)) => assert_eq!(details, "connection refused"),
        other => panic!("expected a transport error, got {:?}", other),
    }
}

#[test]
fn resolve_fetch_decodes_a_received_body() {
    let body = r#"{"data":{"username":"alice","total_fans":100,"total_videos":5}}"#.to_string();
    let rec = resolve_fetch(Ok(body)).unwrap();
    assert_eq!(
        rec,
        ProfileRecord { username: "alice".to_string(), total_fans: 100, total_videos: 5 }
    );
}

#[test]
fn resolve_fetch_never_decodes_a_failed_request() {
    // Even a failure text that happens to be valid JSON stays a transport error.
    let r = resolve_fetch(Err(r#"{"data":{}}"#.to_string()));
    assert!(matches!(r, Err(FetchError::Transport(_))));
}

#[test]
fn fetch_through_unreachable_proxy_is_a_transport_error() {
    // Port 1 on the loopback host has no listener, so the connection attempt
    // to the proxy fails and nothing arrives to be decoded.
    let proxy = ProxyEndpoint { host: "127.0.0.1".to_string(), port: 1 };
    let client = build_client(&proxy).unwrap();
    let r = fetch_profile(&client, "http://www.example.com/api/v2/user/get_info");
    assert!(matches!(r, Err(FetchError::Transport(_))));
}
