//! Decoding of the identity assertion that an upstream proxy forwards: a token of
//! three dot-separated segments whose middle one is unpadded URL-safe base64 of a
//! JSON document. Nothing is verified cryptographically; the decoder is a parser.
use crate::text::{free_of, lemma_split_three, split_on, split_text, views};
use vstd::prelude::*;

verus! {

#[verifier::external_type_specification]
#[verifier::external_body]
pub struct ExValue(serde_json::Value);

/// The bytes that base64's URL-safe engine without padding decodes `s` to, or
/// `None` where it reports an error.
pub uninterp spec fn base64url_decoded(s: Seq<char>) -> Option<Seq<u8>>;

/// Whether serde_json accepts `b` as one JSON document.
pub uninterp spec fn json_parses(b: Seq<u8>) -> bool;

/// Relies on `base64::engine::general_purpose::URL_SAFE_NO_PAD.decode`: the bytes
/// that the text encodes, or an error, as a function of the text alone.
#[verifier::external_body]
fn decode_base64url(s: &str) -> (r: Option<Vec<u8>>)
    ensures
        r is Some <==> base64url_decoded(s@) is Some,
        r is Some ==> base64url_decoded(s@) == Some(r->Some_0@),
{
    base64::Engine::decode(&base64::engine::general_purpose::URL_SAFE_NO_PAD, s).ok()
}

/// Relies on `serde_json::from_slice::<serde_json::Value>`: a value exactly when
/// the bytes hold one JSON document, as a function of the bytes alone.
#[verifier::external_body]
fn parse_json(b: &[u8]) -> (r: Option<serde_json::Value>)
    ensures
        r is Some <==> json_parses(b@),
{
    serde_json::from_slice::<serde_json::Value>(b).ok()
}

/// The decoded claims of a forwarded identity assertion. An object payload maps
/// claim names to values; any other JSON value is kept as the whole payload.
pub struct IapContext {
    pub payload: serde_json::Value,
    /// The JSON text that the payload was parsed from.
    pub claims_json: Vec<u8>,
}

/// The middle segment decodes from base64 to a JSON document.
pub open spec fn payload_accepted(segment: Seq<char>) -> bool {
    match base64url_decoded(segment) {
        Some(bytes) => json_parses(bytes),
        None => false,
    }
}

/// The token has exactly three segments and its middle one is accepted.
pub open spec fn token_accepted(token: Seq<char>) -> bool {
    let segments = split_on(token, '.');
    segments.len() == 3 && payload_accepted(segments[1])
}

/// Builds the identity from the decoded payload bytes: present exactly when they
/// hold a JSON document.
pub fn identity_from_payload(bytes: Vec<u8>) -> (r: Option<IapContext>)
    ensures
        r is Some <==> json_parses(bytes@),
        r is Some ==> r->Some_0.claims_json@ == bytes@,
{
    match parse_json(bytes.as_slice()) {
        Some(payload) => Some(IapContext { payload, claims_json: bytes }),
        None => None,
    }
}

/// The middle segment of a three-segment token, or `None` for any other number
/// of segments.
pub fn payload_segment(token: &str) -> (r: Option<String>)
    ensures
        r is Some <==> split_on(token@, '.').len() == 3,
        r is Some ==> r->Some_0@ == split_on(token@, '.')[1],
{
    let parts = split_text(token, '.');
    proof {
        assert(views(parts@).len() == parts@.len());
    }
    if parts.len() != 3 {
        return None;
    }
    proof {
        assert(views(parts@)[1] == parts@[1]@);
    }
    Some(parts[1].clone())
}

/// Decodes a forwarded identity token. Absent when the token does not have exactly
/// three segments, when its middle segment is not unpadded URL-safe base64, or
/// when the decoded bytes are not a JSON document.
pub fn decode_iap_jwt(jwt: &str) -> (r: Option<IapContext>)
    ensures
        r is Some <==> token_accepted(jwt@),
        r is Some ==> base64url_decoded(split_on(jwt@, '.')[1]) == Some(r->Some_0.claims_json@),
        split_on(jwt@, '.').len() != 3 ==> r is None,
        split_on(jwt@, '.').len() == 3 && base64url_decoded(split_on(jwt@, '.')[1]) is None
            ==> r is None,
{
    let segment = match payload_segment(jwt) {
        Some(s) => s,
        None => return None,
    };
    let bytes = match decode_base64url(segment.as_str()) {
        Some(b) => b,
        None => return None,
    };
    identity_from_payload(bytes)
}

/// Only the middle segment decides: for any header and signature segments
/// without dots, the token splits back into its three segments, and it is
/// accepted exactly when its payload segment is (so a decoded token keeps the
/// base64 decoding of that segment).
pub proof fn lemma_token_reads_payload_segment(
    header: Seq<char>,
    payload: Seq<char>,
    signature: Seq<char>,
)
    requires
        free_of(header, '.'),
        free_of(payload, '.'),
        free_of(signature, '.'),
    ensures
        split_on(header + seq!['.'] + payload + seq!['.'] + signature, '.') == seq![
            header,
            payload,
            signature,
        ],
        token_accepted(header + seq!['.'] + payload + seq!['.'] + signature)
            == payload_accepted(payload),
{
    lemma_split_three(header, payload, signature, '.');
}

/// A token with fewer or more than three segments is never accepted.
pub proof fn lemma_wrong_segment_count_rejected(token: Seq<char>)
    requires
        split_on(token, '.').len() != 3,
    ensures
        !token_accepted(token),
{
}

} // verus!
