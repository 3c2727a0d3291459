use gh_client::client::Client;
use gh_client::entities::feeds::Feeds;
use gh_client::entities::notifications::{Reason, Thread};
use gh_client::entities::user::User;
use gh_client::entity::Entity;
use gh_client::errors::Error;
use gh_client::http::Response;
use gh_client::json::json_escape;
use gh_client::numtext::u32_to_string;

fn client() -> Client {
    Client::new(
        "alice".to_owned(),
        "secret".to_owned(),
        "https://api.github.com/".to_owned(),
    )
    .unwrap()
}

fn response(body: &str) -> Response {
    Response { status: 200, headers: Vec::new(), body: body.to_owned() }
}

#[test]
fn decode_fills_fields_and_binds() {
    let c = client();
    let mut user = User::default();
    assert!(user.get_client().is_none());
    let r = c.get_entity(&response("{\"login\":\"alice\",\"id\":1}"), &mut user);
    assert!(r.is_ok());
    assert_eq!(user.login, "alice");
    assert_eq!(user.id(), 1);
    assert!(user.get_client().is_some());
}

#[test]
fn missing_fields_decode_to_zero_values() {
    let c = client();
    let mut user = User::default();
    c.get_entity(&response("{\"login\":\"alice\"}"), &mut user).unwrap();
    assert_eq!(user.login, "alice");
    assert_eq!(user.id(), 0);
    assert_eq!(user.company, "");
    assert_eq!(user.hireable, None);
    assert!(!user.site_admin);
}

#[test]
fn mismatched_field_is_a_decode_error() {
    let c = client();
    let mut user = User::default();
    let r = c.get_entity(&response("{\"login\":42}"), &mut user);
    assert!(matches!(r, Err(Error::DecodeError)));
    // The entity is untouched on failure.
    assert!(user.get_client().is_none());
    assert_eq!(user.login, "");
}

#[test]
fn oversized_number_is_a_decode_error() {
    let c = client();
    let mut user = User::default();
    let r = c.get_entity(&response("{\"id\":5000000000}"), &mut user);
    assert!(matches!(r, Err(Error::DecodeError)));
}

#[test]
fn null_optional_field_is_absent() {
    let c = client();
    let mut user = User::default();
    c.get_entity(&response("{\"hireable\":null}"), &mut user).unwrap();
    assert_eq!(user.hireable, None);
    let mut hired = User::default();
    c.get_entity(&response("{\"hireable\":true}"), &mut hired).unwrap();
    assert_eq!(hired.hireable, Some(true));
}

#[test]
fn extra_fields_are_ignored() {
    let c = client();
    let mut user = User::default();
    c.get_entity(&response("{\"login\":\"a\",\"unheard_of\":[1,2]}"), &mut user).unwrap();
    assert_eq!(user.login, "a");
}

#[test]
fn nested_plan_object_decodes() {
    let c = client();
    let mut user = User::default();
    let ok = c.get_entity(
        &response("{\"plan\":{\"name\":\"pro\",\"space\":2,\"collaborators\":1,\"private_repos\":9}}"),
        &mut user,
    );
    assert!(ok.is_ok());
    let bad = c.get_entity(&response("{\"plan\":\"pro\"}"), &mut User::default());
    assert!(matches!(bad, Err(Error::DecodeError)));
}

#[test]
fn thread_reason_uses_wire_names() {
    let c = client();
    let mut thread = Thread::default();
    c.get_entity(&response("{\"id\":7,\"reason\":\"mention\",\"unread\":true}"), &mut thread)
        .unwrap();
    assert_eq!(thread.reason, Reason::Mention);
    assert!(thread.unread);
    let mut other = Thread::default();
    c.get_entity(&response("{\"reason\":\"statechange\"}"), &mut other).unwrap();
    assert_eq!(other.reason, Reason::StateChange);
    let unknown = c.get_entity(&response("{\"reason\":\"sorcery\"}"), &mut Thread::default());
    assert!(matches!(unknown, Err(Error::DecodeError)));
    let mut missing = Thread::default();
    c.get_entity(&response("{}"), &mut missing).unwrap();
    assert_eq!(missing.reason, Reason::Unspecified);
}

#[test]
fn thread_repository_and_dates_decode() {
    let c = client();
    let mut thread = Thread::default();
    c.get_entity(
        &response(
            "{\"id\":7,\"updated_at\":\"2024-01-01T00:00:00Z\",\"last_read_at\":null,\
             \"repository\":{\"name\":\"verne\",\"private\":true,\
             \"owner\":{\"login\":\"jules\",\"id\":3}}}",
        ),
        &mut thread,
    )
    .unwrap();
    assert_eq!(thread.updated_at.as_deref(), Some("2024-01-01T00:00:00Z"));
    assert_eq!(thread.last_read_at, None);
    assert_eq!(thread.repository.name, "verne");
    assert!(thread.repository.private);
    assert_eq!(thread.repository.owner.login, "jules");
    assert_eq!(thread.repository.owner.id, 3);
}

#[test]
fn feeds_decode_with_links_and_url_list() {
    let c = client();
    let mut feeds = Feeds::default();
    c.get_entity(
        &response(
            "{\"timeline_url\":\"https://github.com/timeline\",\
             \"current_user_organization_urls\":[\"https://a\",\"https://b\"],\
             \"_links\":{\"timeline\":{\"href\":\"https://github.com/timeline\",\
             \"type\":\"application/atom+xml\"}}}",
        ),
        &mut feeds,
    )
    .unwrap();
    assert_eq!(feeds.timeline_url, "https://github.com/timeline");
    assert_eq!(feeds.current_user_organization_urls, vec!["https://a", "https://b"]);
    assert_eq!(feeds.links.timeline.href, "https://github.com/timeline");
    assert_eq!(feeds.links.timeline.type_, "application/atom+xml");
    assert_eq!(feeds.links.user.href, "");
    assert!(feeds.get_client().is_some());
    let bad = c.get_entity(
        &response("{\"current_user_organization_urls\":[\"https://a\",7]}"),
        &mut Feeds::default(),
    );
    assert!(matches!(bad, Err(Error::DecodeError)));
}

#[test]
fn array_bodies_decode_into_bound_entities() {
    let c = client();
    let mut threads: Vec<Thread> = Vec::new();
    c.get_entities(
        &response("[{\"id\":1,\"reason\":\"author\"},{\"id\":2,\"unread\":true}]"),
        &mut threads,
    )
    .unwrap();
    assert_eq!(threads.len(), 2);
    assert_eq!(threads[0].id(), 1);
    assert_eq!(threads[0].reason, Reason::Author);
    assert_eq!(threads[1].id(), 2);
    assert!(threads.iter().all(|t| t.get_client().is_some()));
}

#[test]
fn array_decode_fails_on_any_bad_element() {
    let c = client();
    let mut threads: Vec<Thread> = Vec::new();
    let r = c.get_entities(&response("[{\"id\":1},{\"id\":\"two\"}]"), &mut threads);
    assert!(matches!(r, Err(Error::DecodeError)));
    assert!(threads.is_empty());
    let not_an_array = c.get_entities(&response("{\"id\":1}"), &mut threads);
    assert!(matches!(not_an_array, Err(Error::DecodeError)));
}

#[test]
fn non_json_body_is_a_decode_error() {
    let c = client();
    let r = c.get_entity(&response("Internal Server Error"), &mut User::default());
    assert!(matches!(r, Err(Error::DecodeError)));
}

#[test]
fn json_escape_handles_specials() {
    assert_eq!(json_escape("plain"), "plain");
    assert_eq!(json_escape("a\"b"), "a\\\"b");
    assert_eq!(json_escape("a\\b"), "a\\\\b");
    assert_eq!(json_escape("line\nfeed"), "line\\u000afeed");
    assert_eq!(json_escape("\u{1}"), "\\u0001");
}

#[test]
fn decimal_rendering_of_identifiers() {
    assert_eq!(u32_to_string(0), "0");
    assert_eq!(u32_to_string(42), "42");
    assert_eq!(u32_to_string(4294967295), "4294967295");
}
