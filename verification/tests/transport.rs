use pachong::transport::ConfigError;
use pachong::transport::ProxyEndpoint;
use pachong::transport::build_client;
use pachong::transport::proxy_url;

#[test]
fn proxy_url_formats_host_and_port() {
    assert_eq!(proxy_url("duoip", 8000), "http://duoip:8000/");
}

#[test]
fn proxy_url_smallest_port() {
    assert_eq!(proxy_url("localhost", 1), "http://localhost:1/");
}

#[test]
fn proxy_url_largest_port() {
    assert_eq!(proxy_url("p.example", 65535), "http://p.example:65535/");
}

#[test]
fn build_client_rejects_port_zero() {
    let proxy = ProxyEndpoint { host: "duoip".to_string(), port: 0 };
    assert_eq!(build_client(&proxy).err(), Some(ConfigError::InvalidProxyUrl));
}

#[test]
fn build_client_rejects_empty_host() {
    let proxy = ProxyEndpoint { host: String::new(), port: 8000 };
    assert_eq!(build_client(&proxy).err(), Some(ConfigError::InvalidProxyUrl));
}

#[test]
fn build_client_accepts_a_plain_endpoint() {
    let proxy = ProxyEndpoint { host: "duoip".to_string(), port: 8000 };
    assert!(build_client(&proxy).is_ok());
}

#[test]
fn build_client_rejects_a_host_that_is_no_url() {
    let proxy = ProxyEndpoint { host: "not a host".to_string(), port: 8000 };
    assert_eq!(build_client(&proxy).err(), Some(ConfigError::InvalidProxyUrl));
}
