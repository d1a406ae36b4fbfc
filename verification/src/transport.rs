//! Transport configuration: a forward-proxy endpoint, the proxy URL built
//! from it, and the construction of an HTTP client bound to that proxy.

use vstd::prelude::*;
use vstd::string::StringExecFns;

verus! {

/// The decimal digit character for `d`, which must be below ten.
pub open spec fn dec_digit(d: nat) -> char {
    if d == 0 {
        '0'
    } else if d == 1 {
        '1'
    } else if d == 2 {
        '2'
    } else if d == 3 {
        '3'
    } else if d == 4 {
        '4'
    } else if d == 5 {
        '5'
    } else if d == 6 {
        '6'
    } else if d == 7 {
        '7'
    } else if d == 8 {
        '8'
    } else {
        '9'
    }
}

/// The decimal numeral of `n`, most significant digit first, with no
/// leading zeros (a single `'0'` for zero).
pub open spec fn dec_seq(n: nat) -> Seq<char>
    decreases n,
{
    if n < 10 {
        seq![dec_digit(n)]
    } else {
        dec_seq(n / 10).push(dec_digit(n % 10))
    }
}

fn digit_str(d: u16) -> (r: &'static str)
    requires
        d < 10,
    ensures
        r@ == seq![dec_digit(d as nat)],
{
    if d == 0 {
        proof {
            reveal_strlit("0");
            assert("0"@ =~= seq![dec_digit(d as nat)]);
        }
        "0"
    } else if d == 1 {
        proof {
            reveal_strlit("1");
            assert("1"@ =~= seq![dec_digit(d as nat)]);
        }
        "1"
    } else if d == 2 {
        proof {
            reveal_strlit("2");
            assert("2"@ =~= seq![dec_digit(d as nat)]);
        }
        "2"
    } else if d == 3 {
        proof {
            reveal_strlit("3");
            assert("3"@ =~= seq![dec_digit(d as nat)]);
        }
        "3"
    } else if d == 4 {
        proof {
            reveal_strlit("4");
            assert("4"@ =~= seq![dec_digit(d as nat)]);
        }
        "4"
    } else if d == 5 {
        proof {
            reveal_strlit("5");
            assert("5"@ =~= seq![dec_digit(d as nat)]);
        }
        "5"
    } else if d == 6 {
        proof {
            reveal_strlit("6");
            assert("6"@ =~= seq![dec_digit(d as nat)]);
        }
        "6"
    } else if d == 7 {
        proof {
            reveal_strlit("7");
            assert("7"@ =~= seq![dec_digit(d as nat)]);
        }
        "7"
    } else if d == 8 {
        proof {
            reveal_strlit("8");
            assert("8"@ =~= seq![dec_digit(d as nat)]);
        }
        "8"
    } else {
        proof {
            reveal_strlit("9");
            assert("9"@ =~= seq![dec_digit(d as nat)]);
        }
        "9"
    }
}

fn push_decimal(out: &mut String, n: u16)
    ensures
        final(out)@ == old(out)@ + dec_seq(n as nat),
    decreases n,
{
    let ghost pre = out@;
    if n >= 10 {
        push_decimal(out, n / 10);
    }
    let d: u16 = n % 10;
    out.append(digit_str(d));
    proof {
        assert(out@ =~= pre + dec_seq(n as nat));
    }
}

/// The proxy URL text for `host` and `port`: `http://{host}:{port}/`.
pub open spec fn proxy_url_spec(host: Seq<char>, port: u16) -> Seq<char> {
    "http://"@ + host + ":"@ + dec_seq(port as nat) + "/"@
}

/// Formats the URL under which a forward proxy at `host`:`port` is reached.
pub fn proxy_url(host: &str, port: u16) -> (r: String)
    ensures
        r@ == proxy_url_spec(host@, port),
{
    let mut url = String::from_str("http://");
    url.append(host);
    url.append(":");
    push_decimal(&mut url, port);
    url.append("/");
    proof {
        assert(url@ =~= proxy_url_spec(host@, port));
    }
    url
}

/// A forward-proxy endpoint: the host and port through which every request
/// of a client built here is routed.
pub struct ProxyEndpoint {
    pub host: String,
    pub port: u16,
}

impl ProxyEndpoint {
    /// A usable endpoint names a host and a nonzero port.
    pub open spec fn wf(&self) -> bool {
        self.host@.len() > 0 && self.port >= 1
    }
}

/// The one way client construction fails: the proxy endpoint does not form
/// a valid proxy URL.
#[derive(Debug, Clone, Copy, PartialEq, Eq, Structural)]
pub enum ConfigError {
    InvalidProxyUrl,
}

#[verifier::external_type_specification]
#[verifier::external_body]
pub struct ExClient(reqwest::blocking::Client);

#[verifier::external_type_specification]
#[verifier::external_body]
pub struct ExProxy(reqwest::Proxy);

/// Whether reqwest accepts the text `url` as a proxy URL. `reqwest::Proxy::http`
/// parses its argument, deterministically, so acceptance is a function of the
/// text alone; `make_proxy` is the one function that decides it.
pub uninterp spec fn proxy_accepted(url: Seq<char>) -> bool;

/// Relies on reqwest::Proxy::http: it parses the URL text and returns a
/// proxy description exactly when the text parses as a URL.
#[verifier::external_body]
fn make_proxy(url: &str) -> (r: Option<reqwest::Proxy>)
    ensures
        r is Some <==> proxy_accepted(url@),
{
    reqwest::Proxy::http(url).ok()
}

/// Relies on reqwest::blocking::ClientBuilder: a built client routes its
/// requests through the given proxy and gives up a request after the given
/// timeout. Building can fail for reasons of the local system, so nothing
/// is promised of the outcome.
#[verifier::external_body]
fn client_with_proxy(p: reqwest::Proxy, timeout_secs: u64) -> (r: Option<
    reqwest::blocking::Client,
>) {
    reqwest::blocking::Client::builder().proxy(p).timeout(
        std::time::Duration::from_secs(timeout_secs),
    ).build().ok()
}

/// How long a request may run, connection and read together, before the
/// transport gives up on it.
pub const REQUEST_TIMEOUT_SECS: u64 = 30;

/// Builds an HTTP client that routes every request through the forward
/// proxy `proxy`. An endpoint with an empty host or port zero is rejected
/// at once, before any proxy URL is formed; a well-formed endpoint whose
/// URL text reqwest does not accept is rejected too. Construction does no
/// network work, so the only error is `ConfigError::InvalidProxyUrl`.
pub fn build_client(proxy: &ProxyEndpoint) -> (r: Result<reqwest::blocking::Client, ConfigError>)
    ensures
        r is Ok ==> proxy.wf() && proxy_accepted(proxy_url_spec(proxy.host@, proxy.port)),
        r is Err ==> (r matches Err(e) && e == ConfigError::InvalidProxyUrl),
        !proxy.wf() ==> r is Err,
        !proxy_accepted(proxy_url_spec(proxy.host@, proxy.port)) ==> r is Err,
{
    if proxy.host.as_str().is_empty() || proxy.port == 0 {
        return Err(ConfigError::InvalidProxyUrl);
    }
    let url = proxy_url(proxy.host.as_str(), proxy.port);
    match make_proxy(url.as_str()) {
        None => Err(ConfigError::InvalidProxyUrl),
        Some(p) => match client_with_proxy(p, REQUEST_TIMEOUT_SECS) {
            None => Err(ConfigError::InvalidProxyUrl),
            Some(c) => Ok(c),
        },
    }
}

} // verus!
