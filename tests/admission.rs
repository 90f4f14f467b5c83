use base64::engine::general_purpose::URL_SAFE_NO_PAD;
use base64::Engine;
use sysutils_auth::admission::{
    authenticate, capture_headers, find_header, find_query_param, is_admitted, Admission,
    AuthConfig, RequestHead,
};

fn request(path: &str, query: Option<&str>, headers: &[(&str, &str)]) -> RequestHead {
    RequestHead {
        path: path.to_string(),
        query: query.map(|q| q.to_string()),
        headers: headers
            .iter()
            .map(|(n, v)| (n.to_string(), Some(v.to_string())))
            .collect(),
    }
}

fn key(k: &str) -> Option<String> {
    Some(k.to_string())
}

fn admitted(config: &AuthConfig, expected: &Option<String>, req: &RequestHead) -> bool {
    match authenticate(config, expected, req) {
        Admission::Admitted(_) => true,
        Admission::Rejected => false,
    }
}

#[test]
fn test_health_check() {
    let config = AuthConfig::standard();
    let req = request("/health", None, &[]);
    assert!(admitted(&config, &key("secret"), &req));
    assert!(admitted(&config, &None, &req));
    let wrong = request("/health", None, &[("x-goog-api-key", "wrong")]);
    assert!(admitted(&config, &key("secret"), &wrong));
}

#[test]
fn matching_header_is_admitted() {
    let config = AuthConfig::standard();
    let req = request("/mcp", None, &[("x-goog-api-key", "K-123")]);
    assert!(admitted(&config, &key("K-123"), &req));
}

#[test]
fn other_header_values_are_rejected() {
    let config = AuthConfig::standard();
    for value in ["", "K-124", "k-123", "K-123 ", "K-12"] {
        let req = request("/mcp", None, &[("x-goog-api-key", value)]);
        assert!(!admitted(&config, &key("K-123"), &req), "{}", value);
    }
    let missing = request("/mcp", None, &[("user-agent", "t")]);
    assert!(!admitted(&config, &key("K-123"), &missing));
}

#[test]
fn no_credential_admits_everything() {
    let config = AuthConfig::standard();
    for path in ["/", "/mcp", "/anything"] {
        let req = request(path, None, &[("x-goog-api-key", "whatever")]);
        assert!(admitted(&config, &None, &req));
        assert!(admitted(&config, &None, &request(path, None, &[])));
    }
}

#[test]
fn explicit_secret_scenario() {
    let config = AuthConfig::standard();
    let expected = key("secret123");
    let by_header = request("/mcp", None, &[("x-goog-api-key", "secret123")]);
    assert!(admitted(&config, &expected, &by_header));
    let by_query = request("/mcp", Some("key=secret123"), &[]);
    assert!(admitted(&config, &expected, &by_query));
    let wrong = request("/mcp", None, &[("x-goog-api-key", "wrong")]);
    assert!(matches!(
        authenticate(&config, &expected, &wrong),
        Admission::Rejected
    ));
}

#[test]
fn header_only_config_ignores_the_query() {
    let config = AuthConfig::header_only();
    let expected = key("secret123");
    let by_query = request("/mcp", Some("key=secret123"), &[]);
    assert!(!admitted(&config, &expected, &by_query));
    let by_header = request("/mcp", None, &[("x-goog-api-key", "secret123")]);
    assert!(admitted(&config, &expected, &by_header));
}

#[test]
fn either_place_may_carry_the_key() {
    let config = AuthConfig::standard();
    let expected = key("s3");
    let req = request("/mcp", Some("a=1&key=s3&b=2"), &[("x-goog-api-key", "nope")]);
    assert!(is_admitted(&config, &expected, &req));
    let first_wins = request("/mcp", Some("key=nope&key=s3"), &[]);
    assert!(!is_admitted(&config, &expected, &first_wins));
    let similar = request("/mcp", Some("mykey=s3&keys=s3"), &[]);
    assert!(!is_admitted(&config, &expected, &similar));
}

#[test]
fn query_param_lookup() {
    assert_eq!(find_query_param("key=abc", "key"), Some("abc".to_string()));
    assert_eq!(find_query_param("x=1&key=a=b", "key"), Some("a=b".to_string()));
    assert_eq!(find_query_param("x=1&key=", "key"), Some(String::new()));
    assert_eq!(find_query_param("x=1&key", "key"), None);
    assert_eq!(find_query_param("", "key"), None);
}

#[test]
fn header_lookup_takes_the_first_text_value() {
    let headers = vec![
        ("a".to_string(), Some("1".to_string())),
        ("b".to_string(), None),
        ("a".to_string(), Some("2".to_string())),
    ];
    assert_eq!(find_header(&headers, &"a".to_string()), Some("1".to_string()));
    assert_eq!(find_header(&headers, &"b".to_string()), None);
    assert_eq!(find_header(&headers, &"c".to_string()), None);
}

#[test]
fn non_text_header_values_are_marked() {
    let headers = vec![
        ("x-bin".to_string(), None),
        ("host".to_string(), Some("example".to_string())),
    ];
    let captured = capture_headers(&headers);
    assert_eq!(
        captured,
        vec![
            ("x-bin".to_string(), "<non-utf8>".to_string()),
            ("host".to_string(), "example".to_string()),
        ]
    );
}

#[test]
fn identity_and_headers_reach_downstream() {
    let config = AuthConfig::standard();
    let token = format!(
        "h.{}.s",
        URL_SAFE_NO_PAD.encode("{\"email\":\"a@b.com\"}")
    );
    let req = request(
        "/mcp",
        None,
        &[
            ("user-agent", "test-agent"),
            ("x-goog-iap-jwt-assertion", token.as_str()),
        ],
    );
    match authenticate(&config, &None, &req) {
        Admission::Admitted(ctx) => {
            assert_eq!(
                ctx.headers,
                vec![
                    ("user-agent".to_string(), "test-agent".to_string()),
                    ("x-goog-iap-jwt-assertion".to_string(), token.clone()),
                ]
            );
            let identity = ctx.identity.unwrap();
            let claims = identity.payload.as_object().unwrap();
            assert_eq!(claims.len(), 1);
            assert_eq!(claims.get("email").unwrap().as_str().unwrap(), "a@b.com");
        }
        Admission::Rejected => panic!("request was rejected"),
    }
}

#[test]
fn undecodable_identity_does_not_reject() {
    let config = AuthConfig::standard();
    let req = request(
        "/mcp",
        None,
        &[
            ("x-goog-api-key", "k"),
            ("x-goog-iap-jwt-assertion", "not-a-token"),
        ],
    );
    match authenticate(&config, &key("k"), &req) {
        Admission::Admitted(ctx) => {
            assert!(ctx.identity.is_none());
            assert_eq!(ctx.headers.len(), 2);
        }
        Admission::Rejected => panic!("request was rejected"),
    }
}
