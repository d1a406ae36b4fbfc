//! The shallow shape of a JSON response body, as this library reads it: the
//! body either is not JSON at all, lacks a top-level `data` object, or holds
//! such an object, from which one string field and two integer fields are
//! read. Reading the shape is the work of serde_json and stands behind one
//! trusted function; every decision taken on the shape is verified code.

use vstd::prelude::*;

verus! {

/// What one string field and two integer fields of the `data` object hold,
/// if the body reaches that far. A field that is absent or not of the
/// expected JSON type is `None`.
pub enum RawEnvelope {
    /// The body is not valid JSON.
    Malformed,
    /// The body is JSON, but has no object under the first key.
    MissingData,
    /// The body is JSON with an object under the first key; the three
    /// options hold what its fields contain, where present and well typed.
    Fields { username: Option<String>, total_fans: Option<i64>, total_videos: Option<i64> },
}

/// The mathematical value of a `RawEnvelope`.
pub enum EnvelopeView {
    Malformed,
    MissingData,
    Fields { username: Option<Seq<char>>, total_fans: Option<int>, total_videos: Option<int> },
}

impl View for RawEnvelope {
    type V = EnvelopeView;

    open spec fn view(&self) -> EnvelopeView {
        match self {
            RawEnvelope::Malformed => EnvelopeView::Malformed,
            RawEnvelope::MissingData => EnvelopeView::MissingData,
            RawEnvelope::Fields { username, total_fans, total_videos } => EnvelopeView::Fields {
                username: match username {
                    Some(u) => Some(u@),
                    None => None,
                },
                total_fans: match total_fans {
                    Some(f) => Some(*f as int),
                    None => None,
                },
                total_videos: match total_videos {
                    Some(v) => Some(*v as int),
                    None => None,
                },
            },
        }
    }
}

/// The shallow shape that serde_json reads out of the text `body` at the
/// object key `data_key` and the field keys `user_key`, `fans_key` and
/// `videos_key`. JSON parsing and field lookup are functions of the text
/// and the keys alone, so the shape has a name here rather than pages of
/// grammar; `read_envelope` is the one function that computes it.
pub uninterp spec fn envelope_of(
    body: Seq<char>,
    data_key: Seq<char>,
    user_key: Seq<char>,
    fans_key: Seq<char>,
    videos_key: Seq<char>,
) -> EnvelopeView;

/// Relies on serde_json::from_str::<serde_json::Value> to parse the body,
/// and on serde_json::Value::{get, is_object, as_str, as_i64} to read the
/// object under `data_key` and its three fields: all of them deterministic
/// in the text and the keys, so together they compute `envelope_of`.
/// `as_i64` answers `Some` exactly for JSON numbers that are integers
/// representable in 64 bits.
#[verifier::external_body]
pub fn read_envelope(
    body: &str,
    data_key: &str,
    user_key: &str,
    fans_key: &str,
    videos_key: &str,
) -> (r: RawEnvelope)
    ensures
        r@ == envelope_of(body@, data_key@, user_key@, fans_key@, videos_key@),
{
    let doc: serde_json::Value = match serde_json::from_str(body) {
        Ok(doc) => doc,
        Err(_) => return RawEnvelope::Malformed,
    };
    match doc.get(data_key) {
        Some(data) if data.is_object() => RawEnvelope::Fields {
            username: data.get(user_key).and_then(|v| v.as_str()).map(|s| s.to_string()),
            total_fans: data.get(fans_key).and_then(|v| v.as_i64()),
            total_videos: data.get(videos_key).and_then(|v| v.as_i64()),
        },
        _ => RawEnvelope::MissingData,
    }
}

} // verus!
