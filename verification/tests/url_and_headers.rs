use base64::Engine;
use gh_client::client::{AsUrlParams, Client, EmptyUrlParams};
use gh_client::errors::Error;
use gh_client::http::Method;

fn client() -> Client {
    Client::new(
        "alice".to_owned(),
        "secret".to_owned(),
        "https://api.github.com/".to_owned(),
    )
    .unwrap()
}

#[test]
fn bad_base_url_is_rejected_at_construction() {
    let r = Client::new("u".to_owned(), "p".to_owned(), "not a url".to_owned());
    assert!(matches!(r, Err(Error::MalformedUrl)));
}

#[test]
fn join_failure_surfaces_as_malformed_url() {
    // A cannot-be-a-base URL parses, so construction succeeds, but
    // no segment can be resolved against it.
    let c = Client::new(
        "u".to_owned(),
        "p".to_owned(),
        "mailto:joe@example.com".to_owned(),
    )
    .unwrap();
    let path: Vec<&str> = vec!["user"];
    let r = c.get_url(&path, None::<&EmptyUrlParams>);
    assert!(matches!(r, Err(Error::MalformedUrl)));
}

#[test]
fn single_segment_url() {
    let c = client();
    let path: Vec<String> = vec!["user".to_owned()];
    let url = c.get_url(&path, None::<&EmptyUrlParams>).unwrap();
    assert!(url == "https://api.github.com/user?" || url == "https://api.github.com/user");
}

#[test]
fn collection_shape_does_not_matter() {
    let c = client();
    let owned: Vec<String> = vec!["user".to_owned()];
    let borrowed: Vec<&str> = vec!["user"];
    let fixed: [&str; 1] = ["user"];
    let a = c.get_url(&owned, None::<&EmptyUrlParams>).unwrap();
    let b = c.get_url(&borrowed, None::<&EmptyUrlParams>).unwrap();
    let d = c.get_url(&fixed, None::<&EmptyUrlParams>).unwrap();
    assert_eq!(a, b);
    assert_eq!(a, d);
}

#[test]
fn segments_resolve_by_relative_join() {
    // Each segment is resolved against the URL so far, so a later
    // segment replaces the trailing path component of the previous
    // result.
    let c = client();
    let path: Vec<&str> = vec!["notifications", "thread", "42"];
    let url = c.get_url(&path, None::<&EmptyUrlParams>).unwrap();
    assert!(url == "https://api.github.com/42?" || url == "https://api.github.com/42");
}

#[test]
fn absent_and_empty_params_agree() {
    let c = client();
    let path: Vec<&str> = vec!["user"];
    let absent = c.get_url(&path, None::<&EmptyUrlParams>).unwrap();
    let empty = c.get_url(&path, Some(&EmptyUrlParams)).unwrap();
    let empty_vec: Vec<(&str, &str)> = Vec::new();
    let explicit = c.get_url(&path, Some(&empty_vec)).unwrap();
    assert_eq!(absent, empty);
    assert_eq!(absent, explicit);
}

#[test]
fn query_holds_exactly_the_given_pairs() {
    let c = client();
    let path: Vec<&str> = vec!["notifications"];
    let pairs: Vec<(&str, &str)> = vec![("a", "1"), ("b", "2")];
    let url = c.get_url(&path, Some(&pairs)).unwrap();
    let query = url.split('?').nth(1).unwrap();
    let mut got: Vec<&str> = query.split('&').collect();
    got.sort();
    assert_eq!(got, vec!["a=1", "b=2"]);
}

#[test]
fn empty_params_collection_yields_no_pairs() {
    let v = EmptyUrlParams.as_url_params();
    assert!(v.is_empty());
}

#[test]
fn headers_are_exactly_the_fixed_triple() {
    let c = client();
    let headers = c.get_headers();
    assert_eq!(headers.len(), 3);
    assert_eq!(headers[0].0, "Authorization");
    assert!(headers[0].1.starts_with("Basic "));
    assert_eq!(headers[1].0, "Accept");
    assert_eq!(headers[1].1, "application/vnd.github.v3.raw+json");
    assert_eq!(headers[2].0, "User-Agent");
    assert_eq!(headers[2].1, "gh-rs-cli/0.0.1");
}

#[test]
fn authorization_encodes_the_credentials() {
    let c = Client::new(
        "Aladdin".to_owned(),
        "OpenSesame".to_owned(),
        "https://api.github.com/".to_owned(),
    )
    .unwrap();
    let headers = c.get_headers();
    assert_eq!(headers[0].1, "Basic QWxhZGRpbjpPcGVuU2VzYW1l");
}

#[test]
fn changed_credentials_change_the_authorization_header() {
    let before = Client::new(
        "alice".to_owned(),
        "old-secret".to_owned(),
        "https://api.github.com/".to_owned(),
    )
    .unwrap();
    let already_sent = before.get_headers();
    let after = Client::new(
        "alice".to_owned(),
        "new-secret".to_owned(),
        "https://api.github.com/".to_owned(),
    )
    .unwrap();
    let next = after.get_headers();
    assert_ne!(already_sent[0].1, next[0].1);
    // The header set already produced is a value: it is unaffected
    // by the change.
    assert!(already_sent[0].1.ends_with(&base64_of("alice:old-secret")));
}

fn base64_of(s: &str) -> String {
    base64::engine::general_purpose::STANDARD.encode(s)
}

#[test]
fn get_request_carries_url_headers_and_no_body() {
    let c = client();
    let path: Vec<&str> = vec!["user"];
    let req = c.get(&path, None::<&EmptyUrlParams>).unwrap();
    assert!(matches!(req.method, Method::Get));
    assert!(req.url.starts_with("https://api.github.com/user"));
    assert_eq!(req.headers.len(), 3);
    assert!(req.body.is_none());
}

#[test]
fn put_and_patch_carry_the_payload() {
    let c = client();
    let path: Vec<&str> = vec!["user"];
    let put = c.put(&path, "{\"name\":\"x\"}".to_owned()).unwrap();
    assert!(matches!(put.method, Method::Put));
    assert_eq!(put.body.as_deref(), Some("{\"name\":\"x\"}"));
    let patch = c.patch(&path, "{\"name\":\"y\"}".to_owned()).unwrap();
    assert!(matches!(patch.method, Method::Patch));
    assert_eq!(patch.body.as_deref(), Some("{\"name\":\"y\"}"));
}

#[test]
fn notification_params_encode_percent_escapes() {
    let c = client();
    let params = gh_client::entities::notifications::Params {
        all: Some(true),
        participating: None,
        since: Some("2024-01-01T00:00:00Z".to_owned()),
        before: None,
    };
    let path: Vec<&str> = vec!["notifications"];
    let url = c.get_url(&path, Some(&params)).unwrap();
    let query = url.split('?').nth(1).unwrap();
    assert!(query.contains("all=true"));
    assert!(query.contains("since=2024-01-01T00%3A00%3A00Z"));
    assert!(!query.contains("participating"));
    assert!(!query.contains("before"));
}

#[test]
fn notification_params_list_is_exact() {
    let params = gh_client::entities::notifications::Params {
        all: Some(false),
        participating: Some(true),
        since: None,
        before: Some("2024-02-02T00:00:00Z".to_owned()),
    };
    let pairs = params.as_url_params();
    assert_eq!(
        pairs,
        vec![
            ("all".to_owned(), "false".to_owned()),
            ("participating".to_owned(), "true".to_owned()),
            ("before".to_owned(), "2024-02-02T00:00:00Z".to_owned()),
        ]
    );
}

#[test]
fn error_messages_name_each_failure() {
    assert!(Error::MalformedUrl.message().contains("URL"));
    assert!(Error::TransportError.message().contains("HTTP"));
    assert!(Error::DecodeError.message().contains("decoded"));
    assert!(Error::UninitializedEntity.message().contains("initialized"));
}
