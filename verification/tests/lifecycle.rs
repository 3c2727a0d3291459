use gh_client::client::{Client, EmptyUrlParams};
use gh_client::entities::notifications::{MarkRead, Params, Thread};
use gh_client::entities::repository::{Direction, GetUserReposParams, Sort, Type};
use gh_client::entities::root::Root;
use gh_client::entities::user::User;
use gh_client::entity::Entity;
use gh_client::errors::Error;
use gh_client::http::{Method, Response};

fn client() -> Client {
    Client::new(
        "alice".to_owned(),
        "secret".to_owned(),
        "https://api.github.com/".to_owned(),
    )
    .unwrap()
}

fn response(body: &str) -> Response {
    Response { status: 200, headers: Vec::new(), body: body.to_owned() }
}

#[test]
fn unbound_entities_refuse_every_call() {
    // A freshly default-constructed, never-bound entity fails with
    // UninitializedEntity before any request value exists, so no
    // network activity can take place.
    let path: Vec<&str> = vec!["user"];
    let user = User::default();
    assert!(matches!(
        user.get_entity(&path, None::<&EmptyUrlParams>),
        Err(Error::UninitializedEntity)
    ));
    assert!(matches!(
        user.put(&path, "{}".to_owned()),
        Err(Error::UninitializedEntity)
    ));
    assert!(matches!(
        user.patch(&path, "{}".to_owned()),
        Err(Error::UninitializedEntity)
    ));
    let thread = Thread::default();
    assert!(matches!(thread.get(), Err(Error::UninitializedEntity)));
    assert!(matches!(thread.mark_read(), Err(Error::UninitializedEntity)));
    let root = Root::default();
    assert!(matches!(root.get_user(), Err(Error::UninitializedEntity)));
    assert!(matches!(root.get_feeds(), Err(Error::UninitializedEntity)));
    assert!(matches!(
        root.get_notifications(None),
        Err(Error::UninitializedEntity)
    ));
}

#[test]
fn constructors_fix_the_binding_state() {
    let c = client();
    assert!(User::default().get_client().is_none());
    assert!(User::new(&c).get_client().is_some());
    assert!(Thread::default().get_client().is_none());
    let t = Thread::new(&c);
    assert!(t.get_client().is_some());
    assert_eq!(t.id(), 0);
}

#[test]
fn authenticated_user_scenario() {
    let c = client();
    let root = Root::new(&c);
    let req = root.get_user().unwrap();
    assert!(matches!(req.method, Method::Get));
    assert!(req.url.starts_with("https://api.github.com/user"));
    assert_eq!(req.headers.len(), 3);

    // A stub transport answers.
    let mut user = User::default();
    c.get_entity(&response("{\"login\":\"alice\",\"id\":1}"), &mut user).unwrap();
    assert_eq!(user.login, "alice");
    assert_eq!(user.id(), 1);

    // The returned user is bound and can re-issue its own fetch.
    let path: Vec<&str> = vec!["user"];
    let again = user.get_entity(&path, None::<&EmptyUrlParams>).unwrap();
    assert!(matches!(again.method, Method::Get));
    assert_eq!(again.url, req.url);
}

#[test]
fn notifications_scenario() {
    let c = client();
    let root = Root::new(&c);
    let params = Params {
        all: Some(true),
        participating: None,
        since: Some("2024-01-01T00:00:00Z".to_owned()),
        before: None,
    };
    let req = root.get_notifications(Some(&params)).unwrap();
    let query = req.url.split('?').nth(1).unwrap();
    assert_eq!(query, "all=true&since=2024-01-01T00%3A00%3A00Z");

    let mut threads: Vec<Thread> = Vec::new();
    c.get_entities(&response("[{\"id\":42,\"unread\":true}]"), &mut threads).unwrap();
    assert_eq!(threads.len(), 1);
    assert!(threads[0].get_client().is_some());
}

#[test]
fn mark_read_scenario() {
    let c = client();
    let mut thread = Thread::new(&c);
    thread.id = 42;
    let req = thread
        .mark_read_at(MarkRead::new("2024-05-06T07:08:09Z".to_owned()))
        .unwrap();
    assert!(matches!(req.method, Method::Patch));
    // The path segments notifications/thread/42 are joined by
    // relative resolution, so each replaces the one before it.
    assert!(req.url.starts_with("https://api.github.com/42"));
    assert_eq!(
        req.body.as_deref(),
        Some("{\"last_read_at\":\"2024-05-06T07:08:09Z\"}")
    );

    let stamped = thread.mark_read().unwrap();
    assert!(matches!(stamped.method, Method::Patch));
    let body = stamped.body.unwrap();
    assert!(body.starts_with("{\"last_read_at\":\""));
    assert!(body.ends_with("\"}"));
}

#[test]
fn refetch_overwrites_and_keeps_binding() {
    let c = client();
    let mut thread = Thread::new(&c);
    thread.id = 42;
    let req = thread.get().unwrap();
    assert!(matches!(req.method, Method::Get));

    c.get_entity(&response("{\"id\":42,\"unread\":true,\"url\":\"https://x\"}"), &mut thread)
        .unwrap();
    assert_eq!(thread.id(), 42);
    assert!(thread.unread);
    assert_eq!(thread.url, "https://x");
    // The binding survives the overwrite: the thread can go on
    // issuing calls as itself.
    assert!(thread.get_client().is_some());
    assert!(thread.get().is_ok());

    // Re-binding after a decode changes no wire field.
    let login_before = thread.url.clone();
    let cl = thread.get_client().unwrap().clone();
    thread.set_client(&cl);
    assert_eq!(thread.url, login_before);
    assert_eq!(thread.id(), 42);
}

#[test]
fn transport_failure_is_not_an_entity_failure() {
    // A stub transport returning HTTP 500 with a non-JSON body makes
    // the decode step fail with DecodeError — never
    // UninitializedEntity, since the root was bound all along.
    let c = client();
    let root = Root::new(&c);
    assert!(root.get_user().is_ok());
    let resp = Response {
        status: 500,
        headers: Vec::new(),
        body: "Internal Server Error".to_owned(),
    };
    let mut user = User::default();
    let r = c.get_entity(&resp, &mut user);
    assert!(matches!(r, Err(Error::DecodeError)));
}

#[test]
fn feeds_request_targets_the_feeds_path() {
    let c = client();
    let root = Root::new(&c);
    let req = root.get_feeds().unwrap();
    assert!(req.url.starts_with("https://api.github.com/feeds"));
}

#[test]
fn repository_listing_vocabulary_is_available() {
    let params = GetUserReposParams {
        type_: Some(Type::Owner),
        sort: Some(Sort::Updated),
        direction: Some(Direction::Ascendant),
    };
    assert_eq!(params.type_, Some(Type::Owner));
    assert_eq!(params.sort, Some(Sort::Updated));
    assert_eq!(params.direction, Some(Direction::Ascendant));
}
