//! The user resource.

use vstd::prelude::*;

use crate::client::{Client, ClientView};
use crate::entity::Entity;
use crate::errors::Error;
use crate::json::{lookup, obj_get, spec_bool_field, bool_field, spec_opt_bool_field, opt_bool_field, spec_str_field, str_field, spec_u32_field, u32_field, Json};

verus! {

/// The subscription plan of a user account.
#[derive(Debug)]
pub struct Plan {
    name: String,
    space: u32,
    collaborators: u32,
    private_repos: u32,
}

/// The mathematical value of a [`Plan`].
#[verifier::ext_equal]
pub struct PlanView {
    pub name: Seq<char>,
    pub space: u32,
    pub collaborators: u32,
    pub private_repos: u32,
}

impl View for Plan {
    type V = PlanView;

    closed spec fn view(&self) -> PlanView {
        PlanView {
            name: self.name@,
            space: self.space,
            collaborators: self.collaborators,
            private_repos: self.private_repos,
        }
    }
}

/// The zero value of a [`Plan`]: every field empty.
pub open spec fn spec_default_plan() -> PlanView {
    PlanView {
        name: Seq::empty(),
        space: 0,
        collaborators: 0,
        private_repos: 0,
    }
}

impl Default for Plan {
    fn default() -> (r: Self) 
        ensures
            r@ == spec_default_plan(),
    {
        let r = Plan {
            name: String::new(),
            space: 0,
            collaborators: 0,
            private_repos: 0,
        };
        proof {
            assert(r@ =~~= spec_default_plan());
        }
        r
    }
}

/// What decoding an object's members into a [`Plan`] yields,
/// under the permissive policy: a missing member is its field's
/// zero value, a mismatched one fails the whole decode.
pub open spec fn spec_decode_plan(pairs: Seq<(String, Json)>) -> Option<PlanView> {
    if spec_str_field(pairs, "name"@) is Some && spec_u32_field(pairs, "space"@) is Some && spec_u32_field(pairs, "collaborators"@) is Some && spec_u32_field(pairs, "private_repos"@) is Some {
        Some(PlanView {
            name: spec_str_field(pairs, "name"@)->Some_0,
            space: spec_u32_field(pairs, "space"@)->Some_0,
            collaborators: spec_u32_field(pairs, "collaborators"@)->Some_0,
            private_repos: spec_u32_field(pairs, "private_repos"@)->Some_0,
        })
    } else {
        None
    }
}

/// Decodes an object's members into an unbound [`Plan`],
/// exactly as [`spec_decode_plan`] describes.
pub fn decode_plan(pairs: &Vec<(String, Json)>) -> (r: Result<Plan, Error>)
    ensures
        match r {
            Ok(v) => spec_decode_plan(pairs@) == Some(v@),
            Err(e) => e == Error::DecodeError && spec_decode_plan(pairs@) is None,
        },
{
    let name = str_field(pairs, "name")?;
    let space = u32_field(pairs, "space")?;
    let collaborators = u32_field(pairs, "collaborators")?;
    let private_repos = u32_field(pairs, "private_repos")?;
    let v = Plan {
        name,
        space,
        collaborators,
        private_repos,
    };
    proof {
        assert(spec_decode_plan(pairs@) is Some);
        assert(spec_decode_plan(pairs@)->Some_0 =~~= v@);
    }
    Ok(v)
}

/// A [`Plan`]-valued field: missing means the zero value;
/// anything but an object is a mismatch.
pub open spec fn spec_plan_field(pairs: Seq<(String, Json)>, key: Seq<char>) -> Option<PlanView> {
    match lookup(pairs, key) {
        None => Some(spec_default_plan()),
        Some(Json::Obj(pp)) => spec_decode_plan(pp@),
        Some(_) => None,
    }
}

/// Extracts a [`Plan`]-valued field.
pub fn plan_field(pairs: &Vec<(String, Json)>, key: &str) -> (r: Result<Plan, Error>)
    ensures
        match r {
            Ok(v) => spec_plan_field(pairs@, key@) == Some(v@),
            Err(e) => e == Error::DecodeError && spec_plan_field(pairs@, key@) is None,
        },
{
    match obj_get(pairs, key) {
        None => Ok(Plan::default()),
        Some(Json::Obj(pp)) => decode_plan(pp),
        Some(_) => Err(Error::DecodeError),
    }
}

/// A user account, as the authenticated-user endpoint returns it.
#[derive(Debug)]
pub struct User {
    client: Option<Client>,
    pub login: String,
    pub id: u32,
    pub avatar_url: String,
    pub html_url: String,
    pub gravatar_id: String,
    pub name: String,
    pub company: String,
    pub blog: String,
    pub location: String,
    pub email: String,
    pub hireable: Option<bool>,
    pub bio: String,
    pub public_repos: u32,
    pub public_gists: u32,
    pub followers: u32,
    pub following: u32,
    pub created_at: String,
    pub updated_at: String,
    pub type_: String,
    pub site_admin: bool,
    pub total_private_repos: u32,
    pub owned_private_repos: u32,
    pub private_gists: u32,
    pub disk_usage: u32,
    pub collaborators: u32,
    pub plan: Plan,
    pub url: String,
    pub events_url: String,
    pub following_url: String,
    pub followers_url: String,
    pub gists_url: String,
    pub organizations_url: String,
    pub received_events_url: String,
    pub repos_url: String,
    pub starred_url: String,
    pub subscriptions_url: String,
}

/// The mathematical value of a [`User`].
#[verifier::ext_equal]
pub struct UserView {
    pub client: Option<ClientView>,
    pub login: Seq<char>,
    pub id: u32,
    pub avatar_url: Seq<char>,
    pub html_url: Seq<char>,
    pub gravatar_id: Seq<char>,
    pub name: Seq<char>,
    pub company: Seq<char>,
    pub blog: Seq<char>,
    pub location: Seq<char>,
    pub email: Seq<char>,
    pub hireable: Option<bool>,
    pub bio: Seq<char>,
    pub public_repos: u32,
    pub public_gists: u32,
    pub followers: u32,
    pub following: u32,
    pub created_at: Seq<char>,
    pub updated_at: Seq<char>,
    pub type_: Seq<char>,
    pub site_admin: bool,
    pub total_private_repos: u32,
    pub owned_private_repos: u32,
    pub private_gists: u32,
    pub disk_usage: u32,
    pub collaborators: u32,
    pub plan: PlanView,
    pub url: Seq<char>,
    pub events_url: Seq<char>,
    pub following_url: Seq<char>,
    pub followers_url: Seq<char>,
    pub gists_url: Seq<char>,
    pub organizations_url: Seq<char>,
    pub received_events_url: Seq<char>,
    pub repos_url: Seq<char>,
    pub starred_url: Seq<char>,
    pub subscriptions_url: Seq<char>,
}

impl View for User {
    type V = UserView;

    closed spec fn view(&self) -> UserView {
        UserView {
            client: match self.client { Option::Some(ref c) => Some(c@), Option::None => None },
            login: self.login@,
            id: self.id,
            avatar_url: self.avatar_url@,
            html_url: self.html_url@,
            gravatar_id: self.gravatar_id@,
            name: self.name@,
            company: self.company@,
            blog: self.blog@,
            location: self.location@,
            email: self.email@,
            hireable: self.hireable,
            bio: self.bio@,
            public_repos: self.public_repos,
            public_gists: self.public_gists,
            followers: self.followers,
            following: self.following,
            created_at: self.created_at@,
            updated_at: self.updated_at@,
            type_: self.type_@,
            site_admin: self.site_admin,
            total_private_repos: self.total_private_repos,
            owned_private_repos: self.owned_private_repos,
            private_gists: self.private_gists,
            disk_usage: self.disk_usage,
            collaborators: self.collaborators,
            plan: self.plan@,
            url: self.url@,
            events_url: self.events_url@,
            following_url: self.following_url@,
            followers_url: self.followers_url@,
            gists_url: self.gists_url@,
            organizations_url: self.organizations_url@,
            received_events_url: self.received_events_url@,
            repos_url: self.repos_url@,
            starred_url: self.starred_url@,
            subscriptions_url: self.subscriptions_url@,
        }
    }
}

/// The zero value of a [`User`]: every field empty, unbound.
pub open spec fn spec_default_user() -> UserView {
    UserView {
        client: None,
        login: Seq::empty(),
        id: 0,
        avatar_url: Seq::empty(),
        html_url: Seq::empty(),
        gravatar_id: Seq::empty(),
        name: Seq::empty(),
        company: Seq::empty(),
        blog: Seq::empty(),
        location: Seq::empty(),
        email: Seq::empty(),
        hireable: None,
        bio: Seq::empty(),
        public_repos: 0,
        public_gists: 0,
        followers: 0,
        following: 0,
        created_at: Seq::empty(),
        updated_at: Seq::empty(),
        type_: Seq::empty(),
        site_admin: false,
        total_private_repos: 0,
        owned_private_repos: 0,
        private_gists: 0,
        disk_usage: 0,
        collaborators: 0,
        plan: spec_default_plan(),
        url: Seq::empty(),
        events_url: Seq::empty(),
        following_url: Seq::empty(),
        followers_url: Seq::empty(),
        gists_url: Seq::empty(),
        organizations_url: Seq::empty(),
        received_events_url: Seq::empty(),
        repos_url: Seq::empty(),
        starred_url: Seq::empty(),
        subscriptions_url: Seq::empty(),
    }
}

impl Default for User {
    fn default() -> (r: Self) 
        ensures
            r@ == spec_default_user(),
    {
        let r = User {
            client: None,
            login: String::new(),
            id: 0,
            avatar_url: String::new(),
            html_url: String::new(),
            gravatar_id: String::new(),
            name: String::new(),
            company: String::new(),
            blog: String::new(),
            location: String::new(),
            email: String::new(),
            hireable: None,
            bio: String::new(),
            public_repos: 0,
            public_gists: 0,
            followers: 0,
            following: 0,
            created_at: String::new(),
            updated_at: String::new(),
            type_: String::new(),
            site_admin: false,
            total_private_repos: 0,
            owned_private_repos: 0,
            private_gists: 0,
            disk_usage: 0,
            collaborators: 0,
            plan: Plan::default(),
            url: String::new(),
            events_url: String::new(),
            following_url: String::new(),
            followers_url: String::new(),
            gists_url: String::new(),
            organizations_url: String::new(),
            received_events_url: String::new(),
            repos_url: String::new(),
            starred_url: String::new(),
            subscriptions_url: String::new(),
        };
        proof {
            assert(r@ =~~= spec_default_user());
        }
        r
    }
}

/// What decoding an object's members into a [`User`] yields,
/// under the permissive policy: a missing member is its field's
/// zero value, a mismatched one fails the whole decode.
pub open spec fn spec_decode_user(pairs: Seq<(String, Json)>) -> Option<UserView> {
    if spec_str_field(pairs, "login"@) is Some && spec_u32_field(pairs, "id"@) is Some && spec_str_field(pairs, "avatar_url"@) is Some && spec_str_field(pairs, "html_url"@) is Some && spec_str_field(pairs, "gravatar_id"@) is Some && spec_str_field(pairs, "name"@) is Some && spec_str_field(pairs, "company"@) is Some && spec_str_field(pairs, "blog"@) is Some && spec_str_field(pairs, "location"@) is Some && spec_str_field(pairs, "email"@) is Some && spec_opt_bool_field(pairs, "hireable"@) is Some && spec_str_field(pairs, "bio"@) is Some && spec_u32_field(pairs, "public_repos"@) is Some && spec_u32_field(pairs, "public_gists"@) is Some && spec_u32_field(pairs, "followers"@) is Some && spec_u32_field(pairs, "following"@) is Some && spec_str_field(pairs, "created_at"@) is Some && spec_str_field(pairs, "updated_at"@) is Some && spec_str_field(pairs, "type"@) is Some && spec_bool_field(pairs, "site_admin"@) is Some && spec_u32_field(pairs, "total_private_repos"@) is Some && spec_u32_field(pairs, "owned_private_repos"@) is Some && spec_u32_field(pairs, "private_gists"@) is Some && spec_u32_field(pairs, "disk_usage"@) is Some && spec_u32_field(pairs, "collaborators"@) is Some && spec_plan_field(pairs, "plan"@) is Some && spec_str_field(pairs, "url"@) is Some && spec_str_field(pairs, "events_url"@) is Some && spec_str_field(pairs, "following_url"@) is Some && spec_str_field(pairs, "followers_url"@) is Some && spec_str_field(pairs, "gists_url"@) is Some && spec_str_field(pairs, "organizations_url"@) is Some && spec_str_field(pairs, "received_events_url"@) is Some && spec_str_field(pairs, "repos_url"@) is Some && spec_str_field(pairs, "starred_url"@) is Some && spec_str_field(pairs, "subscriptions_url"@) is Some {
        Some(UserView {
            client: None,
            login: spec_str_field(pairs, "login"@)->Some_0,
            id: spec_u32_field(pairs, "id"@)->Some_0,
            avatar_url: spec_str_field(pairs, "avatar_url"@)->Some_0,
            html_url: spec_str_field(pairs, "html_url"@)->Some_0,
            gravatar_id: spec_str_field(pairs, "gravatar_id"@)->Some_0,
            name: spec_str_field(pairs, "name"@)->Some_0,
            company: spec_str_field(pairs, "company"@)->Some_0,
            blog: spec_str_field(pairs, "blog"@)->Some_0,
            location: spec_str_field(pairs, "location"@)->Some_0,
            email: spec_str_field(pairs, "email"@)->Some_0,
            hireable: spec_opt_bool_field(pairs, "hireable"@)->Some_0,
            bio: spec_str_field(pairs, "bio"@)->Some_0,
            public_repos: spec_u32_field(pairs, "public_repos"@)->Some_0,
            public_gists: spec_u32_field(pairs, "public_gists"@)->Some_0,
            followers: spec_u32_field(pairs, "followers"@)->Some_0,
            following: spec_u32_field(pairs, "following"@)->Some_0,
            created_at: spec_str_field(pairs, "created_at"@)->Some_0,
            updated_at: spec_str_field(pairs, "updated_at"@)->Some_0,
            type_: spec_str_field(pairs, "type"@)->Some_0,
            site_admin: spec_bool_field(pairs, "site_admin"@)->Some_0,
            total_private_repos: spec_u32_field(pairs, "total_private_repos"@)->Some_0,
            owned_private_repos: spec_u32_field(pairs, "owned_private_repos"@)->Some_0,
            private_gists: spec_u32_field(pairs, "private_gists"@)->Some_0,
            disk_usage: spec_u32_field(pairs, "disk_usage"@)->Some_0,
            collaborators: spec_u32_field(pairs, "collaborators"@)->Some_0,
            plan: spec_plan_field(pairs, "plan"@)->Some_0,
            url: spec_str_field(pairs, "url"@)->Some_0,
            events_url: spec_str_field(pairs, "events_url"@)->Some_0,
            following_url: spec_str_field(pairs, "following_url"@)->Some_0,
            followers_url: spec_str_field(pairs, "followers_url"@)->Some_0,
            gists_url: spec_str_field(pairs, "gists_url"@)->Some_0,
            organizations_url: spec_str_field(pairs, "organizations_url"@)->Some_0,
            received_events_url: spec_str_field(pairs, "received_events_url"@)->Some_0,
            repos_url: spec_str_field(pairs, "repos_url"@)->Some_0,
            starred_url: spec_str_field(pairs, "starred_url"@)->Some_0,
            subscriptions_url: spec_str_field(pairs, "subscriptions_url"@)->Some_0,
        })
    } else {
        None
    }
}

/// Decodes an object's members into an unbound [`User`],
/// exactly as [`spec_decode_user`] describes.
pub fn decode_user(pairs: &Vec<(String, Json)>) -> (r: Result<User, Error>)
    ensures
        match r {
            Ok(v) => spec_decode_user(pairs@) == Some(v@),
            Err(e) => e == Error::DecodeError && spec_decode_user(pairs@) is None,
        },
{
    let login = str_field(pairs, "login")?;
    let id = u32_field(pairs, "id")?;
    let avatar_url = str_field(pairs, "avatar_url")?;
    let html_url = str_field(pairs, "html_url")?;
    let gravatar_id = str_field(pairs, "gravatar_id")?;
    let name = str_field(pairs, "name")?;
    let company = str_field(pairs, "company")?;
    let blog = str_field(pairs, "blog")?;
    let location = str_field(pairs, "location")?;
    let email = str_field(pairs, "email")?;
    let hireable = opt_bool_field(pairs, "hireable")?;
    let bio = str_field(pairs, "bio")?;
    let public_repos = u32_field(pairs, "public_repos")?;
    let public_gists = u32_field(pairs, "public_gists")?;
    let followers = u32_field(pairs, "followers")?;
    let following = u32_field(pairs, "following")?;
    let created_at = str_field(pairs, "created_at")?;
    let updated_at = str_field(pairs, "updated_at")?;
    let type_ = str_field(pairs, "type")?;
    let site_admin = bool_field(pairs, "site_admin")?;
    let total_private_repos = u32_field(pairs, "total_private_repos")?;
    let owned_private_repos = u32_field(pairs, "owned_private_repos")?;
    let private_gists = u32_field(pairs, "private_gists")?;
    let disk_usage = u32_field(pairs, "disk_usage")?;
    let collaborators = u32_field(pairs, "collaborators")?;
    let plan = plan_field(pairs, "plan")?;
    let url = str_field(pairs, "url")?;
    let events_url = str_field(pairs, "events_url")?;
    let following_url = str_field(pairs, "following_url")?;
    let followers_url = str_field(pairs, "followers_url")?;
    let gists_url = str_field(pairs, "gists_url")?;
    let organizations_url = str_field(pairs, "organizations_url")?;
    let received_events_url = str_field(pairs, "received_events_url")?;
    let repos_url = str_field(pairs, "repos_url")?;
    let starred_url = str_field(pairs, "starred_url")?;
    let subscriptions_url = str_field(pairs, "subscriptions_url")?;
    let v = User {
        client: None,
        login,
        id,
        avatar_url,
        html_url,
        gravatar_id,
        name,
        company,
        blog,
        location,
        email,
        hireable,
        bio,
        public_repos,
        public_gists,
        followers,
        following,
        created_at,
        updated_at,
        type_,
        site_admin,
        total_private_repos,
        owned_private_repos,
        private_gists,
        disk_usage,
        collaborators,
        plan,
        url,
        events_url,
        following_url,
        followers_url,
        gists_url,
        organizations_url,
        received_events_url,
        repos_url,
        starred_url,
        subscriptions_url,
    };
    proof {
        assert(spec_decode_user(pairs@) is Some);
        assert(spec_decode_user(pairs@)->Some_0 =~~= v@);
    }
    Ok(v)
}

impl Entity for User {
    open spec fn spec_client_of(v: UserView) -> Option<ClientView> {
        v.client
    }

    open spec fn wire_eq(a: UserView, b: UserView) -> bool {
        a == (UserView { client: a.client, ..b })
    }

    open spec fn spec_decode(j: Json) -> Option<UserView> {
        match j {
            Json::Obj(pairs) => spec_decode_user(pairs@),
            _ => None,
        }
    }

    fn get_client(&self) -> (r: Option<&Client>) {
        match &self.client {
            Option::Some(c) => Some(c),
            Option::None => None,
        }
    }

    fn set_client(&mut self, client: &Client) {
        self.client = Some(client.clone());
        proof {
            assert(self@ =~~= (UserView { client: self@.client, ..old(self)@ }));
        }
    }

    fn decode(j: &Json) -> (r: Result<User, Error>) {
        match j {
            Json::Obj(pairs) => decode_user(pairs),
            _ => Err(Error::DecodeError),
        }
    }
}

impl User {
    /// A fresh, zero-valued user already bound to `client`, ready to
    /// issue its first fetch as itself.
    pub fn new(client: &Client) -> (r: Self)
        ensures
            r@ == (UserView { client: Some(client@), ..spec_default_user() }),
    {
        let mut user = User::default();
        user.set_client(client);
        proof {
            assert(user@ =~~= (UserView { client: Some(client@), ..spec_default_user() }));
        }
        user
    }

    /// The account's numeric identifier.
    pub fn id(&self) -> (r: u32)
        ensures
            r == self@.id,
    {
        self.id
    }
}

/// The abbreviated account record that user-listing endpoints
/// return: the profile fields alone, with none of the private
/// counters.
#[derive(Debug, Default)]
pub struct UserProfile {
    pub login: String,
    pub id: u32,
    pub avatar_url: String,
    pub html_url: String,
    pub gravatar_id: String,
    pub url: String,
    pub following_url: String,
    pub followers_url: String,
    pub gists_url: String,
    pub starred_url: String,
    pub subscriptions_url: String,
    pub organizations_url: String,
    pub repos_url: String,
    pub received_events_url: String,
    pub events_url: String,
    pub type_: String,
    pub site_admin: bool,
}

/// A partial update of the authenticated user's profile: only the
/// fields that are set are meant to be sent.
#[derive(Debug, Default)]
pub struct UserPatch {
    pub name: Option<String>,
    pub company: Option<String>,
    pub blog: Option<String>,
    pub location: Option<String>,
    pub email: Option<String>,
    pub hireable: Option<bool>,
    pub bio: Option<String>,
}

} // verus!
