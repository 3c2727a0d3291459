//! The feed list resource and its link objects.

use vstd::prelude::*;

use crate::client::{Client, ClientView};
use crate::entity::Entity;
use crate::errors::Error;
use crate::json::{lookup, obj_get, spec_str_field, str_field, spec_str_arr_field, str_arr_field, Json};

verus! {

/// One hyperlink of the feed list, with its media type.
#[derive(Debug)]
pub struct FeedLink {
    pub href: String,
    pub type_: String,
}

/// The mathematical value of a [`FeedLink`].
#[verifier::ext_equal]
pub struct FeedLinkView {
    pub href: Seq<char>,
    pub type_: Seq<char>,
}

impl View for FeedLink {
    type V = FeedLinkView;

    closed spec fn view(&self) -> FeedLinkView {
        FeedLinkView {
            href: self.href@,
            type_: self.type_@,
        }
    }
}

/// The zero value of a [`FeedLink`]: every field empty.
pub open spec fn spec_default_feed_link() -> FeedLinkView {
    FeedLinkView {
        href: Seq::empty(),
        type_: Seq::empty(),
    }
}

impl Default for FeedLink {
    fn default() -> (r: Self) 
        ensures
            r@ == spec_default_feed_link(),
    {
        let r = FeedLink {
            href: String::new(),
            type_: String::new(),
        };
        proof {
            assert(r@ =~~= spec_default_feed_link());
        }
        r
    }
}

/// What decoding an object's members into a [`FeedLink`] yields,
/// under the permissive policy: a missing member is its field's
/// zero value, a mismatched one fails the whole decode.
pub open spec fn spec_decode_feed_link(pairs: Seq<(String, Json)>) -> Option<FeedLinkView> {
    if spec_str_field(pairs, "href"@) is Some && spec_str_field(pairs, "type"@) is Some {
        Some(FeedLinkView {
            href: spec_str_field(pairs, "href"@)->Some_0,
            type_: spec_str_field(pairs, "type"@)->Some_0,
        })
    } else {
        None
    }
}

/// Decodes an object's members into an unbound [`FeedLink`],
/// exactly as [`spec_decode_feed_link`] describes.
pub fn decode_feed_link(pairs: &Vec<(String, Json)>) -> (r: Result<FeedLink, Error>)
    ensures
        match r {
            Ok(v) => spec_decode_feed_link(pairs@) == Some(v@),
            Err(e) => e == Error::DecodeError && spec_decode_feed_link(pairs@) is None,
        },
{
    let href = str_field(pairs, "href")?;
    let type_ = str_field(pairs, "type")?;
    let v = FeedLink {
        href,
        type_,
    };
    proof {
        assert(spec_decode_feed_link(pairs@) is Some);
        assert(spec_decode_feed_link(pairs@)->Some_0 =~~= v@);
    }
    Ok(v)
}

/// A [`FeedLink`]-valued field: missing means the zero value;
/// anything but an object is a mismatch.
pub open spec fn spec_feed_link_field(pairs: Seq<(String, Json)>, key: Seq<char>) -> Option<FeedLinkView> {
    match lookup(pairs, key) {
        None => Some(spec_default_feed_link()),
        Some(Json::Obj(pp)) => spec_decode_feed_link(pp@),
        Some(_) => None,
    }
}

/// Extracts a [`FeedLink`]-valued field.
pub fn feed_link_field(pairs: &Vec<(String, Json)>, key: &str) -> (r: Result<FeedLink, Error>)
    ensures
        match r {
            Ok(v) => spec_feed_link_field(pairs@, key@) == Some(v@),
            Err(e) => e == Error::DecodeError && spec_feed_link_field(pairs@, key@) is None,
        },
{
    match obj_get(pairs, key) {
        None => Ok(FeedLink::default()),
        Some(Json::Obj(pp)) => decode_feed_link(pp),
        Some(_) => Err(Error::DecodeError),
    }
}

impl DeepView for FeedLink {
    type V = FeedLinkView;

    open spec fn deep_view(&self) -> FeedLinkView {
        self@
    }
}

/// The elements of an array of links, or `None` where one fails to
/// decode.
pub open spec fn spec_feed_link_items(items: Seq<Json>) -> Option<Seq<FeedLinkView>>
    decreases items.len(),
{
    if items.len() == 0 {
        Some(Seq::empty())
    } else {
        match items[0] {
            Json::Obj(pp) => match (
                spec_decode_feed_link(pp@),
                spec_feed_link_items(items.drop_first()),
            ) {
                (Some(v), Some(rest)) => Some(seq![v] + rest),
                _ => None,
            },
            _ => None,
        }
    }
}

/// An array-of-links field: missing means the empty array.
pub open spec fn spec_feed_link_arr_field(pairs: Seq<(String, Json)>, key: Seq<char>) -> Option<
    Seq<FeedLinkView>,
> {
    match lookup(pairs, key) {
        None => Some(Seq::empty()),
        Some(Json::Arr(items)) => spec_feed_link_items(items@),
        Some(_) => None,
    }
}

/// Extracts an array-of-links field.
pub fn feed_link_arr_field(pairs: &Vec<(String, Json)>, key: &str) -> (r: Result<
    Vec<FeedLink>,
    Error,
>)
    ensures
        match r {
            Ok(v) => spec_feed_link_arr_field(pairs@, key@) == Some(v.deep_view()),
            Err(e) => e == Error::DecodeError && spec_feed_link_arr_field(pairs@, key@) is None,
        },
{
    match obj_get(pairs, key) {
        None => {
            let v: Vec<FeedLink> = Vec::new();
            proof {
                assert(v.deep_view() =~= Seq::<FeedLinkView>::empty());
            }
            Ok(v)
        },
        Some(Json::Arr(items)) => {
            let mut v: Vec<FeedLink> = Vec::new();
            let ghost mut dvs: Seq<FeedLinkView> = Seq::empty();
            proof {
                assert(items@.skip(0) =~= items@);
                assert(forall|rest: Seq<FeedLinkView>|
                    Seq::<FeedLinkView>::empty() + rest =~= rest);
            }
            let mut i: usize = 0;
            while i < items.len()
                invariant
                    lookup(pairs@, key@) == Some(Json::Arr(*items)),
                    i <= items.len(),
                    v.len() == i,
                    dvs.len() == i,
                    spec_feed_link_items(items@) == match spec_feed_link_items(
                        items@.skip(i as int),
                    ) {
                        Some(rest) => Some(dvs + rest),
                        None => None::<Seq<FeedLinkView>>,
                    },
                    forall|k: int| 0 <= k < i ==> #[trigger] v@[k]@ == dvs[k],
                decreases items.len() - i,
            {
                proof {
                    assert(items@.skip(i as int)[0] == items@[i as int]);
                    assert(items@.skip(i as int).drop_first() =~= items@.skip(i as int + 1));
                }
                match &items[i] {
                    Json::Obj(pp) => {
                        match decode_feed_link(pp) {
                            Ok(link) => {
                                let ghost lv = link@;
                                v.push(link);
                                proof {
                                    dvs = dvs.push(lv);
                                    assert(forall|rest: Seq<FeedLinkView>|
                                        dvs.drop_last() + (seq![lv] + rest) =~= dvs + rest);
                                }
                            },
                            Err(_) => {
                                proof {
                                    assert(spec_feed_link_items(items@.skip(i as int)) is None);
                                }
                                return Err(Error::DecodeError);
                            },
                        }
                    },
                    _ => {
                        proof {
                            assert(spec_feed_link_items(items@.skip(i as int)) is None);
                        }
                        return Err(Error::DecodeError);
                    },
                }
                i = i + 1;
            }
            proof {
                assert(items@.skip(i as int) =~= Seq::<Json>::empty());
                assert(dvs + Seq::<FeedLinkView>::empty() =~= dvs);
                assert(v.deep_view() =~= dvs);
            }
            Ok(v)
        },
        Some(_) => Err(Error::DecodeError),
    }
}

/// The `_links` object of the feed list.
#[derive(Debug)]
pub struct FeedLinks {
    pub timeline: FeedLink,
    pub user: FeedLink,
    pub current_user_public: FeedLink,
    pub current_user: FeedLink,
    pub current_user_actor: FeedLink,
    pub current_user_organization: FeedLink,
    pub current_user_organizations: Vec<FeedLink>,
}

/// The mathematical value of a [`FeedLinks`].
#[verifier::ext_equal]
pub struct FeedLinksView {
    pub timeline: FeedLinkView,
    pub user: FeedLinkView,
    pub current_user_public: FeedLinkView,
    pub current_user: FeedLinkView,
    pub current_user_actor: FeedLinkView,
    pub current_user_organization: FeedLinkView,
    pub current_user_organizations: Seq<FeedLinkView>,
}

impl View for FeedLinks {
    type V = FeedLinksView;

    closed spec fn view(&self) -> FeedLinksView {
        FeedLinksView {
            timeline: self.timeline@,
            user: self.user@,
            current_user_public: self.current_user_public@,
            current_user: self.current_user@,
            current_user_actor: self.current_user_actor@,
            current_user_organization: self.current_user_organization@,
            current_user_organizations: self.current_user_organizations.deep_view(),
        }
    }
}

/// The zero value of a [`FeedLinks`]: every field empty.
pub open spec fn spec_default_feed_links() -> FeedLinksView {
    FeedLinksView {
        timeline: spec_default_feed_link(),
        user: spec_default_feed_link(),
        current_user_public: spec_default_feed_link(),
        current_user: spec_default_feed_link(),
        current_user_actor: spec_default_feed_link(),
        current_user_organization: spec_default_feed_link(),
        current_user_organizations: Seq::empty(),
    }
}

impl Default for FeedLinks {
    fn default() -> (r: Self) 
        ensures
            r@ == spec_default_feed_links(),
    {
        let r = FeedLinks {
            timeline: FeedLink::default(),
            user: FeedLink::default(),
            current_user_public: FeedLink::default(),
            current_user: FeedLink::default(),
            current_user_actor: FeedLink::default(),
            current_user_organization: FeedLink::default(),
            current_user_organizations: Vec::new(),
        };
        proof {
            assert(r@ =~~= spec_default_feed_links());
        }
        r
    }
}

/// What decoding an object's members into a [`FeedLinks`] yields,
/// under the permissive policy: a missing member is its field's
/// zero value, a mismatched one fails the whole decode.
pub open spec fn spec_decode_feed_links(pairs: Seq<(String, Json)>) -> Option<FeedLinksView> {
    if spec_feed_link_field(pairs, "timeline"@) is Some && spec_feed_link_field(pairs, "user"@) is Some && spec_feed_link_field(pairs, "current_user_public"@) is Some && spec_feed_link_field(pairs, "current_user"@) is Some && spec_feed_link_field(pairs, "current_user_actor"@) is Some && spec_feed_link_field(pairs, "current_user_organization"@) is Some && spec_feed_link_arr_field(pairs, "current_user_organizations"@) is Some {
        Some(FeedLinksView {
            timeline: spec_feed_link_field(pairs, "timeline"@)->Some_0,
            user: spec_feed_link_field(pairs, "user"@)->Some_0,
            current_user_public: spec_feed_link_field(pairs, "current_user_public"@)->Some_0,
            current_user: spec_feed_link_field(pairs, "current_user"@)->Some_0,
            current_user_actor: spec_feed_link_field(pairs, "current_user_actor"@)->Some_0,
            current_user_organization: spec_feed_link_field(pairs, "current_user_organization"@)->Some_0,
            current_user_organizations: spec_feed_link_arr_field(pairs, "current_user_organizations"@)->Some_0,
        })
    } else {
        None
    }
}

/// Decodes an object's members into an unbound [`FeedLinks`],
/// exactly as [`spec_decode_feed_links`] describes.
pub fn decode_feed_links(pairs: &Vec<(String, Json)>) -> (r: Result<FeedLinks, Error>)
    ensures
        match r {
            Ok(v) => spec_decode_feed_links(pairs@) == Some(v@),
            Err(e) => e == Error::DecodeError && spec_decode_feed_links(pairs@) is None,
        },
{
    let timeline = feed_link_field(pairs, "timeline")?;
    let user = feed_link_field(pairs, "user")?;
    let current_user_public = feed_link_field(pairs, "current_user_public")?;
    let current_user = feed_link_field(pairs, "current_user")?;
    let current_user_actor = feed_link_field(pairs, "current_user_actor")?;
    let current_user_organization = feed_link_field(pairs, "current_user_organization")?;
    let current_user_organizations = feed_link_arr_field(pairs, "current_user_organizations")?;
    let v = FeedLinks {
        timeline,
        user,
        current_user_public,
        current_user,
        current_user_actor,
        current_user_organization,
        current_user_organizations,
    };
    proof {
        assert(spec_decode_feed_links(pairs@) is Some);
        assert(spec_decode_feed_links(pairs@)->Some_0 =~~= v@);
    }
    Ok(v)
}

/// A [`FeedLinks`]-valued field: missing means the zero value;
/// anything but an object is a mismatch.
pub open spec fn spec_feed_links_field(pairs: Seq<(String, Json)>, key: Seq<char>) -> Option<FeedLinksView> {
    match lookup(pairs, key) {
        None => Some(spec_default_feed_links()),
        Some(Json::Obj(pp)) => spec_decode_feed_links(pp@),
        Some(_) => None,
    }
}

/// Extracts a [`FeedLinks`]-valued field.
pub fn feed_links_field(pairs: &Vec<(String, Json)>, key: &str) -> (r: Result<FeedLinks, Error>)
    ensures
        match r {
            Ok(v) => spec_feed_links_field(pairs@, key@) == Some(v@),
            Err(e) => e == Error::DecodeError && spec_feed_links_field(pairs@, key@) is None,
        },
{
    match obj_get(pairs, key) {
        None => Ok(FeedLinks::default()),
        Some(Json::Obj(pp)) => decode_feed_links(pp),
        Some(_) => Err(Error::DecodeError),
    }
}

/// The Atom feeds advertised for the authenticated user.
#[derive(Debug)]
pub struct Feeds {
    client: Option<Client>,
    pub timeline_url: String,
    pub user_url: String,
    pub current_user_public_url: String,
    pub current_user_url: String,
    pub current_user_actor_url: String,
    pub current_user_organization_url: String,
    pub current_user_organization_urls: Vec<String>,
    pub links: FeedLinks,
}

/// The mathematical value of a [`Feeds`].
#[verifier::ext_equal]
pub struct FeedsView {
    pub client: Option<ClientView>,
    pub timeline_url: Seq<char>,
    pub user_url: Seq<char>,
    pub current_user_public_url: Seq<char>,
    pub current_user_url: Seq<char>,
    pub current_user_actor_url: Seq<char>,
    pub current_user_organization_url: Seq<char>,
    pub current_user_organization_urls: Seq<Seq<char>>,
    pub links: FeedLinksView,
}

impl View for Feeds {
    type V = FeedsView;

    closed spec fn view(&self) -> FeedsView {
        FeedsView {
            client: match self.client { Option::Some(ref c) => Some(c@), Option::None => None },
            timeline_url: self.timeline_url@,
            user_url: self.user_url@,
            current_user_public_url: self.current_user_public_url@,
            current_user_url: self.current_user_url@,
            current_user_actor_url: self.current_user_actor_url@,
            current_user_organization_url: self.current_user_organization_url@,
            current_user_organization_urls: self.current_user_organization_urls.deep_view(),
            links: self.links@,
        }
    }
}

/// The zero value of a [`Feeds`]: every field empty, unbound.
pub open spec fn spec_default_feeds() -> FeedsView {
    FeedsView {
        client: None,
        timeline_url: Seq::empty(),
        user_url: Seq::empty(),
        current_user_public_url: Seq::empty(),
        current_user_url: Seq::empty(),
        current_user_actor_url: Seq::empty(),
        current_user_organization_url: Seq::empty(),
        current_user_organization_urls: Seq::empty(),
        links: spec_default_feed_links(),
    }
}

impl Default for Feeds {
    fn default() -> (r: Self) 
        ensures
            r@ == spec_default_feeds(),
    {
        let r = Feeds {
            client: None,
            timeline_url: String::new(),
            user_url: String::new(),
            current_user_public_url: String::new(),
            current_user_url: String::new(),
            current_user_actor_url: String::new(),
            current_user_organization_url: String::new(),
            current_user_organization_urls: Vec::new(),
            links: FeedLinks::default(),
        };
        proof {
            assert(r@ =~~= spec_default_feeds());
        }
        r
    }
}

/// What decoding an object's members into a [`Feeds`] yields,
/// under the permissive policy: a missing member is its field's
/// zero value, a mismatched one fails the whole decode.
pub open spec fn spec_decode_feeds(pairs: Seq<(String, Json)>) -> Option<FeedsView> {
    if spec_str_field(pairs, "timeline_url"@) is Some && spec_str_field(pairs, "user_url"@) is Some && spec_str_field(pairs, "current_user_public_url"@) is Some && spec_str_field(pairs, "current_user_url"@) is Some && spec_str_field(pairs, "current_user_actor_url"@) is Some && spec_str_field(pairs, "current_user_organization_url"@) is Some && spec_str_arr_field(pairs, "current_user_organization_urls"@) is Some && spec_feed_links_field(pairs, "_links"@) is Some {
        Some(FeedsView {
            client: None,
            timeline_url: spec_str_field(pairs, "timeline_url"@)->Some_0,
            user_url: spec_str_field(pairs, "user_url"@)->Some_0,
            current_user_public_url: spec_str_field(pairs, "current_user_public_url"@)->Some_0,
            current_user_url: spec_str_field(pairs, "current_user_url"@)->Some_0,
            current_user_actor_url: spec_str_field(pairs, "current_user_actor_url"@)->Some_0,
            current_user_organization_url: spec_str_field(pairs, "current_user_organization_url"@)->Some_0,
            current_user_organization_urls: spec_str_arr_field(pairs, "current_user_organization_urls"@)->Some_0,
            links: spec_feed_links_field(pairs, "_links"@)->Some_0,
        })
    } else {
        None
    }
}

/// Decodes an object's members into an unbound [`Feeds`],
/// exactly as [`spec_decode_feeds`] describes.
pub fn decode_feeds(pairs: &Vec<(String, Json)>) -> (r: Result<Feeds, Error>)
    ensures
        match r {
            Ok(v) => spec_decode_feeds(pairs@) == Some(v@),
            Err(e) => e == Error::DecodeError && spec_decode_feeds(pairs@) is None,
        },
{
    let timeline_url = str_field(pairs, "timeline_url")?;
    let user_url = str_field(pairs, "user_url")?;
    let current_user_public_url = str_field(pairs, "current_user_public_url")?;
    let current_user_url = str_field(pairs, "current_user_url")?;
    let current_user_actor_url = str_field(pairs, "current_user_actor_url")?;
    let current_user_organization_url = str_field(pairs, "current_user_organization_url")?;
    let current_user_organization_urls = str_arr_field(pairs, "current_user_organization_urls")?;
    let links = feed_links_field(pairs, "_links")?;
    let v = Feeds {
        client: None,
        timeline_url,
        user_url,
        current_user_public_url,
        current_user_url,
        current_user_actor_url,
        current_user_organization_url,
        current_user_organization_urls,
        links,
    };
    proof {
        assert(spec_decode_feeds(pairs@) is Some);
        assert(spec_decode_feeds(pairs@)->Some_0 =~~= v@);
    }
    Ok(v)
}

impl Entity for Feeds {
    open spec fn spec_client_of(v: FeedsView) -> Option<ClientView> {
        v.client
    }

    open spec fn wire_eq(a: FeedsView, b: FeedsView) -> bool {
        a == (FeedsView { client: a.client, ..b })
    }

    open spec fn spec_decode(j: Json) -> Option<FeedsView> {
        match j {
            Json::Obj(pairs) => spec_decode_feeds(pairs@),
            _ => None,
        }
    }

    fn get_client(&self) -> (r: Option<&Client>) {
        match &self.client {
            Option::Some(c) => Some(c),
            Option::None => None,
        }
    }

    fn set_client(&mut self, client: &Client) {
        self.client = Some(client.clone());
        proof {
            assert(self@ =~~= (FeedsView { client: self@.client, ..old(self)@ }));
        }
    }

    fn decode(j: &Json) -> (r: Result<Feeds, Error>) {
        match j {
            Json::Obj(pairs) => decode_feeds(pairs),
            _ => Err(Error::DecodeError),
        }
    }
}

} // verus!
