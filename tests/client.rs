use api_client::body::{recv_bytes, Body};
use api_client::client::{Client, Header, Request};

fn request_with(headers: Vec<(&str, &str)>) -> Request {
    Request {
        method: "GET".to_string(),
        uri: "https://example.com/api/v1/games".to_string(),
        headers: headers
            .into_iter()
            .map(|(n, v)| Header { name: n.to_string(), value: v.to_string() })
            .collect(),
        body: Body::empty(),
    }
}

fn pairs(r: &Request) -> Vec<(String, String)> {
    r.headers.iter().map(|h| (h.name.clone(), h.value.clone())).collect()
}

#[test]
fn no_token_leaves_request_alone() {
    let c = Client::new();
    let mut r = request_with(vec![("Accept", "application/json")]);
    c.authorize(&mut r);
    assert_eq!(pairs(&r), vec![("Accept".to_string(), "application/json".to_string())]);
}

#[test]
fn token_is_sent_as_bearer() {
    let mut c = Client::new();
    c.set_access_token("abc123");
    let mut r = request_with(vec![("Accept", "application/json")]);
    c.authorize(&mut r);
    assert_eq!(
        pairs(&r),
        vec![
            ("Accept".to_string(), "application/json".to_string()),
            ("authorization".to_string(), "Bearer abc123".to_string()),
        ]
    );
    assert_eq!(r.method, "GET");
    assert_eq!(r.uri, "https://example.com/api/v1/games");
}

#[test]
fn token_overrides_caller_authorization_in_any_case() {
    let mut c = Client::new();
    c.set_access_token("t");
    let mut r = request_with(vec![
        ("Authorization", "Basic zzz"),
        ("X-Other", "1"),
        ("AUTHORIZATION", "Bearer old"),
    ]);
    c.authorize(&mut r);
    assert_eq!(
        pairs(&r),
        vec![
            ("X-Other".to_string(), "1".to_string()),
            ("authorization".to_string(), "Bearer t".to_string()),
        ]
    );
}

#[test]
fn second_token_wins() {
    let mut c = Client::new();
    c.set_access_token("first");
    c.set_access_token("second");
    let mut r = request_with(vec![]);
    c.authorize(&mut r);
    assert_eq!(pairs(&r), vec![("authorization".to_string(), "Bearer second".to_string())]);
}

#[test]
fn malformed_token_is_skipped() {
    let mut c = Client::new();
    c.set_access_token("bad\ntoken");
    let mut r = request_with(vec![("Authorization", "Basic keep")]);
    c.authorize(&mut r);
    assert_eq!(pairs(&r), vec![("Authorization".to_string(), "Basic keep".to_string())]);
}

#[test]
fn non_ascii_token_is_a_valid_header_value() {
    let mut c = Client::new();
    c.set_access_token("caf\u{e9}\tx");
    let mut r = request_with(vec![]);
    c.authorize(&mut r);
    assert_eq!(pairs(&r), vec![("authorization".to_string(), "Bearer caf\u{e9}\tx".to_string())]);
}

#[test]
fn delete_char_token_is_skipped() {
    let mut c = Client::new();
    c.set_access_token("a\u{7f}");
    let mut r = request_with(vec![]);
    c.authorize(&mut r);
    assert!(r.headers.is_empty());
}

#[test]
fn bodies_read_their_bytes() {
    assert_eq!(recv_bytes(Body::empty()), Vec::<u8>::new());
    assert_eq!(recv_bytes(Body::from(vec![1u8, 2, 3])), vec![1u8, 2, 3]);
}
