use base64::engine::general_purpose::URL_SAFE_NO_PAD;
use base64::Engine;
use serde_json::Value;
use sysutils_auth::text::split_text;
use sysutils_auth::token::{decode_iap_jwt, identity_from_payload, payload_segment};

fn object(pairs: &[(&str, Value)]) -> Value {
    let mut m = serde_json::Map::new();
    for (k, v) in pairs {
        m.insert(k.to_string(), v.clone());
    }
    Value::Object(m)
}

fn token_for(payload: &Value) -> String {
    let payload_str = serde_json::to_string(payload).unwrap();
    format!("header.{}.signature", URL_SAFE_NO_PAD.encode(payload_str))
}

#[test]
fn main_test_decode_iap_jwt() {
    let payload = object(&[
        ("email", Value::String("test@example.com".to_string())),
        ("sub", Value::String("12345".to_string())),
        ("aud", Value::String("iap-audience".to_string())),
        ("iss", Value::String("https://cloud.google.com/iap".to_string())),
        ("custom", Value::String("value".to_string())),
    ]);
    let payload_str = serde_json::to_string(&payload).unwrap();
    let payload_b64 = URL_SAFE_NO_PAD.encode(payload_str);
    let jwt = format!("header.{}.signature", payload_b64);

    let ctx = decode_iap_jwt(&jwt).unwrap();
    assert_eq!(
        ctx.payload.get("email").unwrap().as_str().unwrap(),
        "test@example.com"
    );
    assert_eq!(ctx.payload.get("custom").unwrap().as_str().unwrap(), "value");
}

#[test]
fn decode_round_trips_mixed_claims() {
    let mut nested = serde_json::Map::new();
    nested.insert("device_id".to_string(), Value::String("d-1".to_string()));
    let payload = object(&[
        ("email", Value::String("a@b.com".to_string())),
        ("exp", Value::from(1700000000u64)),
        ("verified", Value::Bool(true)),
        ("google", Value::Object(nested)),
        ("groups", Value::Array(vec![Value::from(1u64), Value::Null])),
    ]);
    let ctx = decode_iap_jwt(&token_for(&payload)).unwrap();
    assert_eq!(ctx.payload, payload);
    assert_eq!(ctx.claims_json, serde_json::to_vec(&payload).unwrap());
}

#[test]
fn decode_keeps_a_payload_that_is_not_an_object() {
    let payload = Value::String("just text".to_string());
    let ctx = decode_iap_jwt(&token_for(&payload)).unwrap();
    assert_eq!(ctx.payload, payload);
    assert!(ctx.payload.as_object().is_none());
}

#[test]
fn decode_rejects_wrong_segment_counts() {
    let b64 = URL_SAFE_NO_PAD.encode("{\"email\":\"a@b.com\"}");
    assert!(decode_iap_jwt("").is_none());
    assert!(decode_iap_jwt(&b64).is_none());
    assert!(decode_iap_jwt(&format!("header.{}", b64)).is_none());
    assert!(decode_iap_jwt(&format!("header.{}.sig.extra", b64)).is_none());
    assert!(decode_iap_jwt(&format!("{}..", b64)).is_none());
    assert!(decode_iap_jwt(&format!("header.{}.signature", b64)).is_some());
}

#[test]
fn decode_rejects_bad_base64() {
    assert!(decode_iap_jwt("a.!!!notbase64!!!.c").is_none());
    let padded = base64::engine::general_purpose::URL_SAFE.encode("{\"a\":1}");
    assert!(padded.ends_with('='));
    assert!(decode_iap_jwt(&format!("a.{}.c", padded)).is_none());
    let standard = base64::engine::general_purpose::STANDARD_NO_PAD.encode([0xfbu8, 0xff, 0xfe]);
    assert!(standard.contains('+') || standard.contains('/'));
    assert!(decode_iap_jwt(&format!("a.{}.c", standard)).is_none());
}

#[test]
fn decode_rejects_payload_that_is_not_json() {
    let b64 = URL_SAFE_NO_PAD.encode("not json at all");
    assert!(decode_iap_jwt(&format!("a.{}.c", b64)).is_none());
    assert!(decode_iap_jwt("a..c").is_none());
}

#[test]
fn decode_ignores_header_and_signature_contents() {
    let b64 = URL_SAFE_NO_PAD.encode("{\"sub\":\"42\"}");
    let a = decode_iap_jwt(&format!("xx.{}.yy", b64)).unwrap();
    let b = decode_iap_jwt(&format!(".{}.", b64)).unwrap();
    assert_eq!(a.payload, b.payload);
    assert_eq!(a.payload.get("sub").unwrap().as_str().unwrap(), "42");
}

#[test]
fn payload_segment_picks_the_middle() {
    assert_eq!(payload_segment("a.bc.d"), Some("bc".to_string()));
    assert_eq!(payload_segment("a..d"), Some(String::new()));
    assert_eq!(payload_segment("a.b"), None);
    assert_eq!(payload_segment("a.b.c.d"), None);
}

#[test]
fn identity_from_payload_needs_json() {
    assert!(identity_from_payload(b"{\"email\":\"a@b.com\"}".to_vec()).is_some());
    assert!(identity_from_payload(b"42".to_vec()).is_some());
    assert!(identity_from_payload(b"{\"email\":".to_vec()).is_none());
    assert!(identity_from_payload(b"".to_vec()).is_none());
}

#[test]
fn split_text_keeps_empty_pieces() {
    assert_eq!(split_text("a..b.", '.'), vec!["a", "", "b", ""]);
    assert_eq!(split_text("", '.'), vec![""]);
    assert_eq!(split_text("é.ü", '.'), vec!["é", "ü"]);
}
