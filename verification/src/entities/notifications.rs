//! The notification resources: threads, their parameters, and the
//! mark-as-read payload.

use vstd::prelude::*;

use crate::auth::spec_headers;
use crate::client::{AsUrlParams, Client, ClientView, EmptyUrlParams, spec_request};
use crate::entity::Entity;
use crate::errors::Error;
use crate::http::{HttpRequest, HttpRequestView, Method};
use crate::json::{
    json_quote, lookup, obj_get, spec_bool_field, bool_field, spec_json_quoted, spec_opt_str_field,
    opt_str_field, spec_str_field, str_field, spec_u32_field, u32_field, Json,
};
use crate::numtext::{spec_u32_str, u32_to_string};
use crate::urlbuild::spec_build;

verus! {

/// Query parameters accepted by the notifications listing.  The
/// timestamps are RFC 3339 strings; an absent field is omitted from
/// the query string entirely, never sent empty.
#[derive(Debug, Default)]
pub struct Params {
    /// If true, show notifications marked as read.
    pub all: Option<bool>,
    /// If true, only show notifications in which the user is
    /// directly participating or mentioned.
    pub participating: Option<bool>,
    /// Only show notifications updated after the given time.
    pub since: Option<String>,
    /// Only show notifications updated before the given time.
    pub before: Option<String>,
}

/// One boolean query parameter: `true` or `false` as literal words,
/// or nothing at all.
pub open spec fn spec_flag_param(name: Seq<char>, v: Option<bool>) -> Seq<(Seq<char>, Seq<char>)> {
    match v {
        Some(true) => seq![(name, "true"@)],
        Some(false) => seq![(name, "false"@)],
        None => Seq::empty(),
    }
}

/// One timestamp query parameter, or nothing at all.
pub open spec fn spec_time_param(name: Seq<char>, v: Option<Seq<char>>) -> Seq<
    (Seq<char>, Seq<char>),
> {
    match v {
        Some(t) => seq![(name, t)],
        None => Seq::empty(),
    }
}

impl AsUrlParams for Params {
    open spec fn params_view(&self) -> Seq<(Seq<char>, Seq<char>)> {
        spec_flag_param("all"@, self.all) + spec_flag_param("participating"@, self.participating)
            + spec_time_param(
            "since"@,
            match self.since {
                Option::Some(ref s) => Some(s@),
                Option::None => None,
            },
        ) + spec_time_param(
            "before"@,
            match self.before {
                Option::Some(ref s) => Some(s@),
                Option::None => None,
            },
        )
    }

    fn as_url_params(&self) -> (r: Vec<(String, String)>) {
        let mut params: Vec<(String, String)> = Vec::new();
        if let Some(all) = self.all {
            if all {
                params.push(("all".to_owned(), "true".to_owned()));
            } else {
                params.push(("all".to_owned(), "false".to_owned()));
            }
        }
        proof {
            assert(params.deep_view() =~~= spec_flag_param("all"@, self.all));
        }
        if let Some(participating) = self.participating {
            if participating {
                params.push(("participating".to_owned(), "true".to_owned()));
            } else {
                params.push(("participating".to_owned(), "false".to_owned()));
            }
        }
        proof {
            assert(params.deep_view() =~~= spec_flag_param("all"@, self.all) + spec_flag_param(
                "participating"@,
                self.participating,
            ));
        }
        if let Some(ref since) = self.since {
            params.push(("since".to_owned(), since.clone()));
        }
        if let Some(ref before) = self.before {
            params.push(("before".to_owned(), before.clone()));
        }
        proof {
            assert(params.deep_view() =~~= self.params_view());
        }
        params
    }
}

/// Reason for which the user got a notification.
#[derive(Debug, Clone, Copy, PartialEq, Eq, Structural)]
pub enum Reason {
    /// The user is assigned to the issue.
    Assign,
    /// The user created the thread.
    Author,
    /// The user commented on the thread.
    Comment,
    /// The user accepted an invitation to contribute to the
    /// repository.
    Invitation,
    /// The user subscribed to the thread, via an issue or a pull
    /// request.
    Manual,
    /// The user was specifically mentioned in the content.
    Mention,
    /// The user changed the thread state, for example by closing an
    /// issue or merging a pull request.
    StateChange,
    /// The user is watching the repository.
    Subscribed,
    /// The user is on a team that was mentioned.
    TeamMention,
    /// No reason was given.
    Unspecified,
}

impl Default for Reason {
    fn default() -> (r: Self)
        ensures
            r == Reason::Unspecified,
    {
        Reason::Unspecified
    }
}

/// The notification reason carried by its wire name, or `None` for
/// an unknown name.
pub open spec fn spec_reason_of(s: Seq<char>) -> Option<Reason> {
    if s == "assign"@ {
        Some(Reason::Assign)
    } else if s == "author"@ {
        Some(Reason::Author)
    } else if s == "comment"@ {
        Some(Reason::Comment)
    } else if s == "invitation"@ {
        Some(Reason::Invitation)
    } else if s == "manual"@ {
        Some(Reason::Manual)
    } else if s == "mention"@ {
        Some(Reason::Mention)
    } else if s == "statechange"@ {
        Some(Reason::StateChange)
    } else if s == "subscribed"@ {
        Some(Reason::Subscribed)
    } else if s == "teammention"@ {
        Some(Reason::TeamMention)
    } else {
        None
    }
}

/// Reads a notification reason from its wire name.
fn reason_of(s: &String) -> (r: Option<Reason>)
    ensures
        r == spec_reason_of(s@),
{
    if *s == String::from_str("assign") {
        Some(Reason::Assign)
    } else if *s == String::from_str("author") {
        Some(Reason::Author)
    } else if *s == String::from_str("comment") {
        Some(Reason::Comment)
    } else if *s == String::from_str("invitation") {
        Some(Reason::Invitation)
    } else if *s == String::from_str("manual") {
        Some(Reason::Manual)
    } else if *s == String::from_str("mention") {
        Some(Reason::Mention)
    } else if *s == String::from_str("statechange") {
        Some(Reason::StateChange)
    } else if *s == String::from_str("subscribed") {
        Some(Reason::Subscribed)
    } else if *s == String::from_str("teammention") {
        Some(Reason::TeamMention)
    } else {
        None
    }
}

/// A reason field: missing means no reason; a string with an
/// unknown name, or anything but a string, is a mismatch.
pub open spec fn spec_reason_field(pairs: Seq<(String, Json)>, key: Seq<char>) -> Option<Reason> {
    match lookup(pairs, key) {
        None => Some(Reason::Unspecified),
        Some(Json::Str(s)) => spec_reason_of(s@),
        Some(_) => None,
    }
}

/// Extracts a reason field.
pub fn reason_field(pairs: &Vec<(String, Json)>, key: &str) -> (r: Result<Reason, Error>)
    ensures
        match r {
            Ok(v) => spec_reason_field(pairs@, key@) == Some(v),
            Err(e) => e == Error::DecodeError && spec_reason_field(pairs@, key@) is None,
        },
{
    match obj_get(pairs, key) {
        None => Ok(Reason::Unspecified),
        Some(Json::Str(s)) => match reason_of(s) {
            Some(v) => Ok(v),
            None => Err(Error::DecodeError),
        },
        Some(_) => Err(Error::DecodeError),
    }
}

/// The account that owns a notifying repository.
#[derive(Debug)]
pub struct Owner {
    pub login: String,
    pub id: u32,
    pub html_url: String,
    pub avatar_url: String,
    pub gravatar_id: String,
    pub url: String,
    pub followers_url: String,
    pub following_url: String,
    pub gists_url: String,
    pub starred_url: String,
    pub subscriptions_url: String,
    pub organizations_url: String,
    pub repos_url: String,
    pub events_url: String,
    pub received_events_url: String,
    pub type_: String,
    pub site_admin: bool,
}

/// The mathematical value of a [`Owner`].
#[verifier::ext_equal]
pub struct OwnerView {
    pub login: Seq<char>,
    pub id: u32,
    pub html_url: Seq<char>,
    pub avatar_url: Seq<char>,
    pub gravatar_id: Seq<char>,
    pub url: Seq<char>,
    pub followers_url: Seq<char>,
    pub following_url: Seq<char>,
    pub gists_url: Seq<char>,
    pub starred_url: Seq<char>,
    pub subscriptions_url: Seq<char>,
    pub organizations_url: Seq<char>,
    pub repos_url: Seq<char>,
    pub events_url: Seq<char>,
    pub received_events_url: Seq<char>,
    pub type_: Seq<char>,
    pub site_admin: bool,
}

impl View for Owner {
    type V = OwnerView;

    closed spec fn view(&self) -> OwnerView {
        OwnerView {
            login: self.login@,
            id: self.id,
            html_url: self.html_url@,
            avatar_url: self.avatar_url@,
            gravatar_id: self.gravatar_id@,
            url: self.url@,
            followers_url: self.followers_url@,
            following_url: self.following_url@,
            gists_url: self.gists_url@,
            starred_url: self.starred_url@,
            subscriptions_url: self.subscriptions_url@,
            organizations_url: self.organizations_url@,
            repos_url: self.repos_url@,
            events_url: self.events_url@,
            received_events_url: self.received_events_url@,
            type_: self.type_@,
            site_admin: self.site_admin,
        }
    }
}

/// The zero value of a [`Owner`]: every field empty.
pub open spec fn spec_default_owner() -> OwnerView {
    OwnerView {
        login: Seq::empty(),
        id: 0,
        html_url: Seq::empty(),
        avatar_url: Seq::empty(),
        gravatar_id: Seq::empty(),
        url: Seq::empty(),
        followers_url: Seq::empty(),
        following_url: Seq::empty(),
        gists_url: Seq::empty(),
        starred_url: Seq::empty(),
        subscriptions_url: Seq::empty(),
        organizations_url: Seq::empty(),
        repos_url: Seq::empty(),
        events_url: Seq::empty(),
        received_events_url: Seq::empty(),
        type_: Seq::empty(),
        site_admin: false,
    }
}

impl Default for Owner {
    fn default() -> (r: Self) 
        ensures
            r@ == spec_default_owner(),
    {
        let r = Owner {
            login: String::new(),
            id: 0,
            html_url: String::new(),
            avatar_url: String::new(),
            gravatar_id: String::new(),
            url: String::new(),
            followers_url: String::new(),
            following_url: String::new(),
            gists_url: String::new(),
            starred_url: String::new(),
            subscriptions_url: String::new(),
            organizations_url: String::new(),
            repos_url: String::new(),
            events_url: String::new(),
            received_events_url: String::new(),
            type_: String::new(),
            site_admin: false,
        };
        proof {
            assert(r@ =~~= spec_default_owner());
        }
        r
    }
}

/// What decoding an object's members into a [`Owner`] yields,
/// under the permissive policy: a missing member is its field's
/// zero value, a mismatched one fails the whole decode.
pub open spec fn spec_decode_owner(pairs: Seq<(String, Json)>) -> Option<OwnerView> {
    if spec_str_field(pairs, "login"@) is Some && spec_u32_field(pairs, "id"@) is Some && spec_str_field(pairs, "html_url"@) is Some && spec_str_field(pairs, "avatar_url"@) is Some && spec_str_field(pairs, "gravatar_id"@) is Some && spec_str_field(pairs, "url"@) is Some && spec_str_field(pairs, "followers_url"@) is Some && spec_str_field(pairs, "following_url"@) is Some && spec_str_field(pairs, "gists_url"@) is Some && spec_str_field(pairs, "starred_url"@) is Some && spec_str_field(pairs, "subscriptions_url"@) is Some && spec_str_field(pairs, "organizations_url"@) is Some && spec_str_field(pairs, "repos_url"@) is Some && spec_str_field(pairs, "events_url"@) is Some && spec_str_field(pairs, "received_events_url"@) is Some && spec_str_field(pairs, "type"@) is Some && spec_bool_field(pairs, "site_admin"@) is Some {
        Some(OwnerView {
            login: spec_str_field(pairs, "login"@)->Some_0,
            id: spec_u32_field(pairs, "id"@)->Some_0,
            html_url: spec_str_field(pairs, "html_url"@)->Some_0,
            avatar_url: spec_str_field(pairs, "avatar_url"@)->Some_0,
            gravatar_id: spec_str_field(pairs, "gravatar_id"@)->Some_0,
            url: spec_str_field(pairs, "url"@)->Some_0,
            followers_url: spec_str_field(pairs, "followers_url"@)->Some_0,
            following_url: spec_str_field(pairs, "following_url"@)->Some_0,
            gists_url: spec_str_field(pairs, "gists_url"@)->Some_0,
            starred_url: spec_str_field(pairs, "starred_url"@)->Some_0,
            subscriptions_url: spec_str_field(pairs, "subscriptions_url"@)->Some_0,
            organizations_url: spec_str_field(pairs, "organizations_url"@)->Some_0,
            repos_url: spec_str_field(pairs, "repos_url"@)->Some_0,
            events_url: spec_str_field(pairs, "events_url"@)->Some_0,
            received_events_url: spec_str_field(pairs, "received_events_url"@)->Some_0,
            type_: spec_str_field(pairs, "type"@)->Some_0,
            site_admin: spec_bool_field(pairs, "site_admin"@)->Some_0,
        })
    } else {
        None
    }
}

/// Decodes an object's members into an unbound [`Owner`],
/// exactly as [`spec_decode_owner`] describes.
pub fn decode_owner(pairs: &Vec<(String, Json)>) -> (r: Result<Owner, Error>)
    ensures
        match r {
            Ok(v) => spec_decode_owner(pairs@) == Some(v@),
            Err(e) => e == Error::DecodeError && spec_decode_owner(pairs@) is None,
        },
{
    let login = str_field(pairs, "login")?;
    let id = u32_field(pairs, "id")?;
    let html_url = str_field(pairs, "html_url")?;
    let avatar_url = str_field(pairs, "avatar_url")?;
    let gravatar_id = str_field(pairs, "gravatar_id")?;
    let url = str_field(pairs, "url")?;
    let followers_url = str_field(pairs, "followers_url")?;
    let following_url = str_field(pairs, "following_url")?;
    let gists_url = str_field(pairs, "gists_url")?;
    let starred_url = str_field(pairs, "starred_url")?;
    let subscriptions_url = str_field(pairs, "subscriptions_url")?;
    let organizations_url = str_field(pairs, "organizations_url")?;
    let repos_url = str_field(pairs, "repos_url")?;
    let events_url = str_field(pairs, "events_url")?;
    let received_events_url = str_field(pairs, "received_events_url")?;
    let type_ = str_field(pairs, "type")?;
    let site_admin = bool_field(pairs, "site_admin")?;
    let v = Owner {
        login,
        id,
        html_url,
        avatar_url,
        gravatar_id,
        url,
        followers_url,
        following_url,
        gists_url,
        starred_url,
        subscriptions_url,
        organizations_url,
        repos_url,
        events_url,
        received_events_url,
        type_,
        site_admin,
    };
    proof {
        assert(spec_decode_owner(pairs@) is Some);
        assert(spec_decode_owner(pairs@)->Some_0 =~~= v@);
    }
    Ok(v)
}

/// A [`Owner`]-valued field: missing means the zero value;
/// anything but an object is a mismatch.
pub open spec fn spec_owner_field(pairs: Seq<(String, Json)>, key: Seq<char>) -> Option<OwnerView> {
    match lookup(pairs, key) {
        None => Some(spec_default_owner()),
        Some(Json::Obj(pp)) => spec_decode_owner(pp@),
        Some(_) => None,
    }
}

/// Extracts a [`Owner`]-valued field.
pub fn owner_field(pairs: &Vec<(String, Json)>, key: &str) -> (r: Result<Owner, Error>)
    ensures
        match r {
            Ok(v) => spec_owner_field(pairs@, key@) == Some(v@),
            Err(e) => e == Error::DecodeError && spec_owner_field(pairs@, key@) is None,
        },
{
    match obj_get(pairs, key) {
        None => Ok(Owner::default()),
        Some(Json::Obj(pp)) => decode_owner(pp),
        Some(_) => Err(Error::DecodeError),
    }
}

/// The repository a notification thread belongs to.
#[derive(Debug)]
pub struct Repository {
    pub owner: Owner,
    pub name: String,
    pub full_name: String,
    pub description: String,
    pub private: bool,
    pub fork: bool,
    pub html_url: String,
    pub url: String,
}

/// The mathematical value of a [`Repository`].
#[verifier::ext_equal]
pub struct RepositoryView {
    pub owner: OwnerView,
    pub name: Seq<char>,
    pub full_name: Seq<char>,
    pub description: Seq<char>,
    pub private: bool,
    pub fork: bool,
    pub html_url: Seq<char>,
    pub url: Seq<char>,
}

impl View for Repository {
    type V = RepositoryView;

    closed spec fn view(&self) -> RepositoryView {
        RepositoryView {
            owner: self.owner@,
            name: self.name@,
            full_name: self.full_name@,
            description: self.description@,
            private: self.private,
            fork: self.fork,
            html_url: self.html_url@,
            url: self.url@,
        }
    }
}

/// The zero value of a [`Repository`]: every field empty.
pub open spec fn spec_default_repository() -> RepositoryView {
    RepositoryView {
        owner: spec_default_owner(),
        name: Seq::empty(),
        full_name: Seq::empty(),
        description: Seq::empty(),
        private: false,
        fork: false,
        html_url: Seq::empty(),
        url: Seq::empty(),
    }
}

impl Default for Repository {
    fn default() -> (r: Self) 
        ensures
            r@ == spec_default_repository(),
    {
        let r = Repository {
            owner: Owner::default(),
            name: String::new(),
            full_name: String::new(),
            description: String::new(),
            private: false,
            fork: false,
            html_url: String::new(),
            url: String::new(),
        };
        proof {
            assert(r@ =~~= spec_default_repository());
        }
        r
    }
}

/// What decoding an object's members into a [`Repository`] yields,
/// under the permissive policy: a missing member is its field's
/// zero value, a mismatched one fails the whole decode.
pub open spec fn spec_decode_repository(pairs: Seq<(String, Json)>) -> Option<RepositoryView> {
    if spec_owner_field(pairs, "owner"@) is Some && spec_str_field(pairs, "name"@) is Some && spec_str_field(pairs, "full_name"@) is Some && spec_str_field(pairs, "description"@) is Some && spec_bool_field(pairs, "private"@) is Some && spec_bool_field(pairs, "fork"@) is Some && spec_str_field(pairs, "html_url"@) is Some && spec_str_field(pairs, "url"@) is Some {
        Some(RepositoryView {
            owner: spec_owner_field(pairs, "owner"@)->Some_0,
            name: spec_str_field(pairs, "name"@)->Some_0,
            full_name: spec_str_field(pairs, "full_name"@)->Some_0,
            description: spec_str_field(pairs, "description"@)->Some_0,
            private: spec_bool_field(pairs, "private"@)->Some_0,
            fork: spec_bool_field(pairs, "fork"@)->Some_0,
            html_url: spec_str_field(pairs, "html_url"@)->Some_0,
            url: spec_str_field(pairs, "url"@)->Some_0,
        })
    } else {
        None
    }
}

/// Decodes an object's members into an unbound [`Repository`],
/// exactly as [`spec_decode_repository`] describes.
pub fn decode_repository(pairs: &Vec<(String, Json)>) -> (r: Result<Repository, Error>)
    ensures
        match r {
            Ok(v) => spec_decode_repository(pairs@) == Some(v@),
            Err(e) => e == Error::DecodeError && spec_decode_repository(pairs@) is None,
        },
{
    let owner = owner_field(pairs, "owner")?;
    let name = str_field(pairs, "name")?;
    let full_name = str_field(pairs, "full_name")?;
    let description = str_field(pairs, "description")?;
    let private = bool_field(pairs, "private")?;
    let fork = bool_field(pairs, "fork")?;
    let html_url = str_field(pairs, "html_url")?;
    let url = str_field(pairs, "url")?;
    let v = Repository {
        owner,
        name,
        full_name,
        description,
        private,
        fork,
        html_url,
        url,
    };
    proof {
        assert(spec_decode_repository(pairs@) is Some);
        assert(spec_decode_repository(pairs@)->Some_0 =~~= v@);
    }
    Ok(v)
}

/// A [`Repository`]-valued field: missing means the zero value;
/// anything but an object is a mismatch.
pub open spec fn spec_repository_field(pairs: Seq<(String, Json)>, key: Seq<char>) -> Option<RepositoryView> {
    match lookup(pairs, key) {
        None => Some(spec_default_repository()),
        Some(Json::Obj(pp)) => spec_decode_repository(pp@),
        Some(_) => None,
    }
}

/// Extracts a [`Repository`]-valued field.
pub fn repository_field(pairs: &Vec<(String, Json)>, key: &str) -> (r: Result<Repository, Error>)
    ensures
        match r {
            Ok(v) => spec_repository_field(pairs@, key@) == Some(v@),
            Err(e) => e == Error::DecodeError && spec_repository_field(pairs@, key@) is None,
        },
{
    match obj_get(pairs, key) {
        None => Ok(Repository::default()),
        Some(Json::Obj(pp)) => decode_repository(pp),
        Some(_) => Err(Error::DecodeError),
    }
}

/// One notification thread.
#[derive(Debug)]
pub struct Thread {
    client: Option<Client>,
    pub id: u32,
    pub reason: Reason,
    pub unread: bool,
    pub updated_at: Option<String>,
    pub last_read_at: Option<String>,
    pub url: String,
    pub repository: Repository,
}

/// The mathematical value of a [`Thread`].
#[verifier::ext_equal]
pub struct ThreadView {
    pub client: Option<ClientView>,
    pub id: u32,
    pub reason: Reason,
    pub unread: bool,
    pub updated_at: Option<Seq<char>>,
    pub last_read_at: Option<Seq<char>>,
    pub url: Seq<char>,
    pub repository: RepositoryView,
}

impl View for Thread {
    type V = ThreadView;

    closed spec fn view(&self) -> ThreadView {
        ThreadView {
            client: match self.client { Option::Some(ref c) => Some(c@), Option::None => None },
            id: self.id,
            reason: self.reason,
            unread: self.unread,
            updated_at: match self.updated_at { Option::Some(ref s) => Some(s@), Option::None => None },
            last_read_at: match self.last_read_at { Option::Some(ref s) => Some(s@), Option::None => None },
            url: self.url@,
            repository: self.repository@,
        }
    }
}

/// The zero value of a [`Thread`]: every field empty, unbound.
pub open spec fn spec_default_thread() -> ThreadView {
    ThreadView {
        client: None,
        id: 0,
        reason: Reason::Unspecified,
        unread: false,
        updated_at: None,
        last_read_at: None,
        url: Seq::empty(),
        repository: spec_default_repository(),
    }
}

impl Default for Thread {
    fn default() -> (r: Self) 
        ensures
            r@ == spec_default_thread(),
    {
        let r = Thread {
            client: None,
            id: 0,
            reason: Reason::Unspecified,
            unread: false,
            updated_at: None,
            last_read_at: None,
            url: String::new(),
            repository: Repository::default(),
        };
        proof {
            assert(r@ =~~= spec_default_thread());
        }
        r
    }
}

/// What decoding an object's members into a [`Thread`] yields,
/// under the permissive policy: a missing member is its field's
/// zero value, a mismatched one fails the whole decode.
pub open spec fn spec_decode_thread(pairs: Seq<(String, Json)>) -> Option<ThreadView> {
    if spec_u32_field(pairs, "id"@) is Some && spec_reason_field(pairs, "reason"@) is Some && spec_bool_field(pairs, "unread"@) is Some && spec_opt_str_field(pairs, "updated_at"@) is Some && spec_opt_str_field(pairs, "last_read_at"@) is Some && spec_str_field(pairs, "url"@) is Some && spec_repository_field(pairs, "repository"@) is Some {
        Some(ThreadView {
            client: None,
            id: spec_u32_field(pairs, "id"@)->Some_0,
            reason: spec_reason_field(pairs, "reason"@)->Some_0,
            unread: spec_bool_field(pairs, "unread"@)->Some_0,
            updated_at: spec_opt_str_field(pairs, "updated_at"@)->Some_0,
            last_read_at: spec_opt_str_field(pairs, "last_read_at"@)->Some_0,
            url: spec_str_field(pairs, "url"@)->Some_0,
            repository: spec_repository_field(pairs, "repository"@)->Some_0,
        })
    } else {
        None
    }
}

/// Decodes an object's members into an unbound [`Thread`],
/// exactly as [`spec_decode_thread`] describes.
pub fn decode_thread(pairs: &Vec<(String, Json)>) -> (r: Result<Thread, Error>)
    ensures
        match r {
            Ok(v) => spec_decode_thread(pairs@) == Some(v@),
            Err(e) => e == Error::DecodeError && spec_decode_thread(pairs@) is None,
        },
{
    let id = u32_field(pairs, "id")?;
    let reason = reason_field(pairs, "reason")?;
    let unread = bool_field(pairs, "unread")?;
    let updated_at = opt_str_field(pairs, "updated_at")?;
    let last_read_at = opt_str_field(pairs, "last_read_at")?;
    let url = str_field(pairs, "url")?;
    let repository = repository_field(pairs, "repository")?;
    let v = Thread {
        client: None,
        id,
        reason,
        unread,
        updated_at,
        last_read_at,
        url,
        repository,
    };
    proof {
        assert(spec_decode_thread(pairs@) is Some);
        assert(spec_decode_thread(pairs@)->Some_0 =~~= v@);
    }
    Ok(v)
}

impl Entity for Thread {
    open spec fn spec_client_of(v: ThreadView) -> Option<ClientView> {
        v.client
    }

    open spec fn wire_eq(a: ThreadView, b: ThreadView) -> bool {
        a == (ThreadView { client: a.client, ..b })
    }

    open spec fn spec_decode(j: Json) -> Option<ThreadView> {
        match j {
            Json::Obj(pairs) => spec_decode_thread(pairs@),
            _ => None,
        }
    }

    fn get_client(&self) -> (r: Option<&Client>) {
        match &self.client {
            Option::Some(c) => Some(c),
            Option::None => None,
        }
    }

    fn set_client(&mut self, client: &Client) {
        self.client = Some(client.clone());
        proof {
            assert(self@ =~~= (ThreadView { client: self@.client, ..old(self)@ }));
        }
    }

    fn decode(j: &Json) -> (r: Result<Thread, Error>) {
        match j {
            Json::Obj(pairs) => decode_thread(pairs),
            _ => Err(Error::DecodeError),
        }
    }
}

/// The body of a mark-as-read call: the time the thread was last
/// read, rendered RFC 3339.
#[derive(Debug)]
pub struct MarkRead {
    last_read_at: String,
}

impl View for MarkRead {
    type V = Seq<char>;

    closed spec fn view(&self) -> Seq<char> {
        self.last_read_at@
    }
}

/// The serialized mark-as-read body, framed by the library itself.
pub open spec fn spec_mark_read_body(t: Seq<char>) -> Seq<char> {
    "{\"last_read_at\":"@ + spec_json_quoted(t) + "}"@
}

impl MarkRead {
    /// Wraps a timestamp already rendered RFC 3339.
    pub fn new(last_read_at: String) -> (r: Self)
        ensures
            r@ == last_read_at@,
    {
        MarkRead { last_read_at }
    }

    /// Writes the payload as its JSON body, exactly as
    /// [`spec_mark_read_body`] describes.
    pub fn to_json(&self) -> (r: String)
        ensures
            r@ == spec_mark_read_body(self@),
    {
        let mut r = String::from_str("{\"last_read_at\":");
        let quoted = json_quote(self.last_read_at.as_str());
        r.append(quoted.as_str());
        r.append("}");
        proof {
            assert(r@ =~= spec_mark_read_body(self@));
        }
        r
    }
}

/// The request path scoped to one thread.
pub open spec fn spec_thread_path(id: u32) -> Seq<Seq<char>> {
    seq!["notifications"@, "thread"@, spec_u32_str(id as int)]
}

impl Thread {
    /// A fresh, zero-valued thread already bound to `client`, ready
    /// to issue its first fetch as itself once its identifier is
    /// set.
    pub fn new(client: &Client) -> (r: Self)
        ensures
            r@ == (ThreadView { client: Some(client@), ..spec_default_thread() }),
    {
        let mut thread = Thread::default();
        thread.set_client(client);
        proof {
            assert(thread@ =~~= (ThreadView { client: Some(client@), ..spec_default_thread() }));
        }
        thread
    }

    /// The thread's numeric identifier.
    pub fn id(&self) -> (r: u32)
        ensures
            r == self@.id,
    {
        self.id
    }

    /// The path scoped to this thread, built from its identifier.
    fn thread_path(&self) -> (r: Vec<String>)
        ensures
            r.deep_view() == spec_thread_path(self@.id),
    {
        let mut path: Vec<String> = Vec::new();
        path.push("notifications".to_owned());
        path.push("thread".to_owned());
        path.push(u32_to_string(self.id));
        proof {
            assert(path.deep_view() =~= spec_thread_path(self@.id));
        }
        path
    }

    /// Builds the PATCH that marks this thread read, stamped with
    /// the current time.  On an unbound thread this fails with
    /// `UninitializedEntity` before any request exists; otherwise
    /// the request is the one [`Thread::mark_read_at`] builds for
    /// some timestamp.
    pub fn mark_read(&self) -> (r: Result<HttpRequest, Error>)
        ensures
            match Self::spec_client_of(self@) {
                None => r matches Err(e) && e == Error::UninitializedEntity,
                Some(c) => match r {
                    Ok(req) => {
                        &&& spec_build(c.url, spec_thread_path(self@.id), Seq::empty()) matches Ok(
                            u,
                        ) && req@.url == u
                        &&& req@.method == Method::Patch
                        &&& req@.headers == spec_headers(c.username, c.password)
                        &&& req@.body matches Some(b) && (exists|now: Seq<char>|
                            b == spec_mark_read_body(now))
                    },
                    Err(e) => spec_build(c.url, spec_thread_path(self@.id), Seq::empty()) == Err::<
                        Seq<char>,
                        Error,
                    >(e),
                },
            },
    {
        let now = now_rfc3339();
        let ghost now_view = now@;
        let r = self.mark_read_at(MarkRead::new(now));
        proof {
            if Self::spec_client_of(self@) is Some && r is Ok {
                assert(exists|n: Seq<char>|
                    r->Ok_0@.body->Some_0 == spec_mark_read_body(n)) by {
                    assert(r->Ok_0@.body->Some_0 == spec_mark_read_body(now_view));
                }
            }
        }
        r
    }

    /// Builds the PATCH that marks this thread read at the given
    /// time.  On an unbound thread this fails with
    /// `UninitializedEntity` before any request exists.
    pub fn mark_read_at(&self, payload: MarkRead) -> (r: Result<HttpRequest, Error>)
        ensures
            match Self::spec_client_of(self@) {
                None => r matches Err(e) && e == Error::UninitializedEntity,
                Some(c) => match r {
                    Ok(req) => spec_request(
                        c,
                        Method::Patch,
                        spec_thread_path(self@.id),
                        Seq::empty(),
                        Some(spec_mark_read_body(payload@)),
                    ) == Ok::<HttpRequestView, Error>(req@),
                    Err(e) => spec_request(
                        c,
                        Method::Patch,
                        spec_thread_path(self@.id),
                        Seq::empty(),
                        Some(spec_mark_read_body(payload@)),
                    ) == Err::<HttpRequestView, Error>(e),
                },
            },
    {
        let body = payload.to_json();
        let path = self.thread_path();
        self.patch(&path, body)
    }

    /// Builds the GET that re-fetches this thread by its identifier.
    /// The response is decoded back into this same value with
    /// [`crate::client::Client::get_entity`], which overwrites every
    /// wire field and keeps the binding.  On an unbound thread this
    /// fails with `UninitializedEntity` before any request exists.
    pub fn get(&self) -> (r: Result<HttpRequest, Error>)
        ensures
            match Self::spec_client_of(self@) {
                None => r matches Err(e) && e == Error::UninitializedEntity,
                Some(c) => match r {
                    Ok(req) => spec_request(
                        c,
                        Method::Get,
                        spec_thread_path(self@.id),
                        Seq::empty(),
                        None,
                    ) == Ok::<HttpRequestView, Error>(req@),
                    Err(e) => spec_request(
                        c,
                        Method::Get,
                        spec_thread_path(self@.id),
                        Seq::empty(),
                        None,
                    ) == Err::<HttpRequestView, Error>(e),
                },
            },
    {
        let path = self.thread_path();
        self.get_entity(&path, Some(&EmptyUrlParams))
    }
}

/// Relies on `chrono::Utc::now` and `to_rfc3339`: the current time,
/// rendered RFC 3339.  Nothing is assumed of the value: two calls
/// may differ.
#[verifier::external_body]
fn now_rfc3339() -> String {
    chrono::Utc::now().to_rfc3339()
}

} // verus!
