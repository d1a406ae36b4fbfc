//! The profile fetcher: one GET request through the configured client, and
//! the decoding of the JSON envelope of its response into a typed record.
//! Every decoding decision — which body shapes succeed, which error names
//! which failed step, and the range check on both counts — is verified; the
//! network round trip and the JSON reading stand behind trusted functions.

use crate::envelope::EnvelopeView;
use crate::envelope::RawEnvelope;
use crate::envelope::envelope_of;
use crate::envelope::read_envelope;
use vstd::prelude::*;
use vstd::string::StringExecFns;

verus! {

/// The typed projection of a profile response: present and well-typed in
/// the source payload, or never constructed at all.
#[derive(Debug, Clone, PartialEq, Eq)]
pub struct ProfileRecord {
    pub username: String,
    pub total_fans: i32,
    pub total_videos: i32,
}

/// The mathematical value of a `ProfileRecord`.
pub struct ProfileRecordView {
    pub username: Seq<char>,
    pub total_fans: int,
    pub total_videos: int,
}

impl View for ProfileRecord {
    type V = ProfileRecordView;

    open spec fn view(&self) -> ProfileRecordView {
        ProfileRecordView {
            username: self.username@,
            total_fans: self.total_fans as int,
            total_videos: self.total_videos as int,
        }
    }
}

/// Why a fetch failed: the request never completed, or a response arrived
/// whose body did not match the expected shape.
#[derive(Debug, Clone, PartialEq, Eq)]
pub enum FetchError {
    /// Connection, DNS, proxy or timeout failure, in the transport's own words.
    Transport(String),
    /// The body was rejected; the text names the step that rejected it.
    Decode(String),
}

/// The mathematical value of a `FetchError`.
pub enum FetchErrorView {
    Transport(Seq<char>),
    Decode(Seq<char>),
}

impl View for FetchError {
    type V = FetchErrorView;

    open spec fn view(&self) -> FetchErrorView {
        match self {
            FetchError::Transport(details) => FetchErrorView::Transport(details@),
            FetchError::Decode(reason) => FetchErrorView::Decode(reason@),
        }
    }
}

/// The view of a fetch result.
pub open spec fn result_view(r: Result<ProfileRecord, FetchError>) -> Result<
    ProfileRecordView,
    FetchErrorView,
> {
    match r {
        Ok(rec) => Ok(rec@),
        Err(e) => Err(e@),
    }
}

/// What decoding makes of an envelope shape: for every shape, exactly one
/// success or one decode failure naming the step that failed. The fields
/// are checked in order — username, then total_fans, then total_videos —
/// and each count must fit in 32 bits.
pub open spec fn decode_of_envelope(e: EnvelopeView) -> Result<
    ProfileRecordView,
    FetchErrorView,
> {
    match e {
        EnvelopeView::Malformed => Err(FetchErrorView::Decode("invalid JSON"@)),
        EnvelopeView::MissingData => Err(FetchErrorView::Decode("missing data object"@)),
        EnvelopeView::Fields { username, total_fans, total_videos } => match username {
            None => Err(FetchErrorView::Decode("missing or malformed field: username"@)),
            Some(u) => match total_fans {
                None => Err(FetchErrorView::Decode("missing or malformed field: total_fans"@)),
                Some(f) => if f < i32::MIN || f > i32::MAX {
                    Err(FetchErrorView::Decode("fan count out of range"@))
                } else {
                    match total_videos {
                        None => Err(
                            FetchErrorView::Decode("missing or malformed field: total_videos"@),
                        ),
                        Some(v) => if v < i32::MIN || v > i32::MAX {
                            Err(FetchErrorView::Decode("video count out of range"@))
                        } else {
                            Ok(
                                (ProfileRecordView {
                                    username: u,
                                    total_fans: f,
                                    total_videos: v,
                                }),
                            )
                        },
                    }
                },
            },
        },
    }
}

/// Decodes an envelope shape that was already read from a body. Every
/// branch below is verified against `decode_of_envelope`; tests can reach
/// each of them by building the shape directly.
pub fn decode_envelope(raw: RawEnvelope) -> (r: Result<ProfileRecord, FetchError>)
    ensures
        result_view(r) == decode_of_envelope(raw@),
{
    match raw {
        RawEnvelope::Malformed => Err(FetchError::Decode(String::from_str("invalid JSON"))),
        RawEnvelope::MissingData => Err(
            FetchError::Decode(String::from_str("missing data object")),
        ),
        RawEnvelope::Fields { username, total_fans, total_videos } => {
            let username = match username {
                Some(u) => u,
                None => {
                    return Err(
                        FetchError::Decode(String::from_str("missing or malformed field: username")),
                    );
                },
            };
            let fans: i64 = match total_fans {
                Some(f) => f,
                None => {
                    return Err(
                        FetchError::Decode(
                            String::from_str("missing or malformed field: total_fans"),
                        ),
                    );
                },
            };
            if fans < -2147483648i64 || fans > 2147483647i64 {
                return Err(FetchError::Decode(String::from_str("fan count out of range")));
            }
            let videos: i64 = match total_videos {
                Some(v) => v,
                None => {
                    return Err(
                        FetchError::Decode(
                            String::from_str("missing or malformed field: total_videos"),
                        ),
                    );
                },
            };
            if videos < -2147483648i64 || videos > 2147483647i64 {
                return Err(FetchError::Decode(String::from_str("video count out of range")));
            }
            Ok(ProfileRecord { username, total_fans: fans as i32, total_videos: videos as i32 })
        },
    }
}

/// What a fetch makes of a response body: the shallow shape at the keys
/// `data`, `username`, `total_fans` and `total_videos`, decoded.
pub open spec fn decode_of_body(body: Seq<char>) -> Result<ProfileRecordView, FetchErrorView> {
    decode_of_envelope(envelope_of(body, "data"@, "username"@, "total_fans"@, "total_videos"@))
}

/// Decodes one response body into a profile record, or says exactly why it
/// was rejected: a body that is not JSON, one without a `data` object, one
/// with a missing or mis-typed field, and one with a count outside 32 bits
/// each get their own decode error.
pub fn decode_profile(body: &str) -> (r: Result<ProfileRecord, FetchError>)
    ensures
        result_view(r) == decode_of_body(body@),
{
    let raw = read_envelope(body, "data", "username", "total_fans", "total_videos");
    decode_envelope(raw)
}

/// The view of a transport outcome: the body text on success, the
/// transport's error text on failure.
pub open spec fn http_outcome_view(o: Result<String, String>) -> Result<Seq<char>, Seq<char>> {
    match o {
        Ok(body) => Ok(body@),
        Err(details) => Err(details@),
    }
}

/// What a fetch makes of a transport outcome: a failed request becomes
/// `FetchError::Transport` with the transport's words and is never decoded;
/// a received body is decoded exactly as `decode_of_body` says.
pub open spec fn fetch_of_outcome(o: Result<Seq<char>, Seq<char>>) -> Result<
    ProfileRecordView,
    FetchErrorView,
> {
    match o {
        Ok(body) => decode_of_body(body),
        Err(details) => Err(FetchErrorView::Transport(details)),
    }
}

/// Turns the outcome of the one GET request into the fetch result.
pub fn resolve_fetch(outcome: Result<String, String>) -> (r: Result<ProfileRecord, FetchError>)
    ensures
        result_view(r) == fetch_of_outcome(http_outcome_view(outcome)),
{
    match outcome {
        Ok(body) => decode_profile(body.as_str()),
        Err(details) => Err(FetchError::Transport(details)),
    }
}

/// Relies on reqwest::blocking::Client::get, RequestBuilder::send and
/// Response::text for the one GET round trip; the outcome depends on the
/// network, so nothing is promised of it.
#[verifier::external_body]
fn http_get_text(client: &reqwest::blocking::Client, url: &str) -> (r: Result<String, String>) {
    match client.get(url).send().and_then(|resp| resp.text()) {
        Ok(body) => Ok(body),
        Err(e) => Err(e.to_string()),
    }
}

/// Issues one GET request to `endpoint_url` through `client` and decodes
/// the response. Whatever the network answers, the result is the fetch of
/// some transport outcome: a transport failure is passed on and never
/// decoded, and a received body is decoded exactly as `decode_of_body`
/// says. Nothing is retried and nothing is kept between calls.
pub fn fetch_profile(client: &reqwest::blocking::Client, endpoint_url: &str) -> (r: Result<
    ProfileRecord,
    FetchError,
>)
    ensures
        exists|o: Result<Seq<char>, Seq<char>>| result_view(r) == #[trigger] fetch_of_outcome(o),
{
    let outcome = http_get_text(client, endpoint_url);
    let ghost o = http_outcome_view(outcome);
    let r = resolve_fetch(outcome);
    proof {
        assert(result_view(r) == fetch_of_outcome(o));
    }
    r
}

/// Round-trip law: a body whose shape holds all three fields, with both
/// counts inside 32 bits, decodes to the record of exactly those values.
pub proof fn lemma_complete_envelope_decodes(body: Seq<char>, u: Seq<char>, f: int, v: int)
    requires
        envelope_of(body, "data"@, "username"@, "total_fans"@, "total_videos"@) == (
        EnvelopeView::Fields { username: Some(u), total_fans: Some(f), total_videos: Some(v) }),
        i32::MIN <= f <= i32::MAX,
        i32::MIN <= v <= i32::MAX,
    ensures
        decode_of_body(body) == Ok::<ProfileRecordView, FetchErrorView>(
            (ProfileRecordView { username: u, total_fans: f, total_videos: v }),
        ),
{
}

/// Transport-failure law: a failed request is passed on as
/// `FetchError::Transport` with the transport's words; no record and no
/// decode error is made of it.
pub proof fn lemma_transport_failure_propagates(details: Seq<char>)
    ensures
        fetch_of_outcome(Err(details)) == Err::<ProfileRecordView, FetchErrorView>(
            FetchErrorView::Transport(details),
        ),
{
}

/// Idempotence law: the fetch result is a function of the transport outcome
/// alone — no state hides between calls — so two calls that meet the same
/// outcome yield the same result.
pub proof fn lemma_fetch_idempotent(o1: Result<Seq<char>, Seq<char>>, o2: Result<Seq<char>, Seq<char>>)
    requires
        o1 == o2,
    ensures
        fetch_of_outcome(o1) == fetch_of_outcome(o2),
{
}

} // verus!

