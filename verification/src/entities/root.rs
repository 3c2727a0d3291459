//! The entry point: the root resource that seeds the first bound
//! entities.

use vstd::prelude::*;

use crate::client::{spec_params_of, spec_request, Client, ClientView, EmptyUrlParams};
use crate::entities::notifications::Params;
use crate::entity::Entity;
use crate::errors::Error;
use crate::http::{HttpRequest, HttpRequestView, Method};
use crate::json::Json;

verus! {

/// The API root.  It holds nothing but the client reference and
/// exists purely to issue the first calls, whose results come back
/// already bound to the same client.
#[derive(Debug)]
pub struct Root {
    client: Option<Client>,
}

/// The mathematical value of a [`Root`].
#[verifier::ext_equal]
pub struct RootView {
    pub client: Option<ClientView>,
}

impl View for Root {
    type V = RootView;

    closed spec fn view(&self) -> RootView {
        RootView {
            client: match self.client {
                Option::Some(ref c) => Some(c@),
                Option::None => None,
            },
        }
    }
}

impl Default for Root {
    fn default() -> (r: Self)
        ensures
            r@ == (RootView { client: None }),
    {
        Root { client: None }
    }
}

impl Entity for Root {
    open spec fn spec_client_of(v: RootView) -> Option<ClientView> {
        v.client
    }

    open spec fn wire_eq(a: RootView, b: RootView) -> bool {
        true
    }

    open spec fn spec_decode(j: Json) -> Option<RootView> {
        match j {
            Json::Obj(_) => Some(RootView { client: None }),
            _ => None,
        }
    }

    fn get_client(&self) -> (r: Option<&Client>) {
        match &self.client {
            Option::Some(c) => Some(c),
            Option::None => None,
        }
    }

    fn set_client(&mut self, client: &Client) {
        self.client = Some(client.clone());
    }

    fn decode(j: &Json) -> (r: Result<Root, Error>) {
        match j {
            Json::Obj(_) => Ok(Root { client: None }),
            _ => Err(Error::DecodeError),
        }
    }
}

impl Root {
    /// A root bound to `client`.
    pub fn new(client: &Client) -> (r: Self)
        ensures
            r@ == (RootView { client: Some(client@) }),
    {
        Root { client: Some(client.clone()) }
    }

    /// Builds the GET for the authenticated user.  The response is
    /// decoded into a bound [`crate::entities::user::User`] with
    /// [`crate::client::Client::get_entity`].
    pub fn get_user(&self) -> (r: Result<HttpRequest, Error>)
        ensures
            match Self::spec_client_of(self@) {
                None => r matches Err(e) && e == Error::UninitializedEntity,
                Some(c) => match r {
                    Ok(req) => spec_request(c, Method::Get, seq!["user"@], Seq::empty(), None)
                        == Ok::<HttpRequestView, Error>(req@),
                    Err(e) => spec_request(c, Method::Get, seq!["user"@], Seq::empty(), None)
                        == Err::<HttpRequestView, Error>(e),
                },
            },
    {
        let path = ["user"];
        proof {
            assert(path.deep_view() =~= seq!["user"@]);
        }
        self.get_entity(&path, None::<&EmptyUrlParams>)
    }

    /// Builds the GET for the list of Atom feeds of the
    /// authenticated user.  The response is decoded into a bound
    /// [`crate::entities::feeds::Feeds`] with
    /// [`crate::client::Client::get_entity`].
    pub fn get_feeds(&self) -> (r: Result<HttpRequest, Error>)
        ensures
            match Self::spec_client_of(self@) {
                None => r matches Err(e) && e == Error::UninitializedEntity,
                Some(c) => match r {
                    Ok(req) => spec_request(c, Method::Get, seq!["feeds"@], Seq::empty(), None)
                        == Ok::<HttpRequestView, Error>(req@),
                    Err(e) => spec_request(c, Method::Get, seq!["feeds"@], Seq::empty(), None)
                        == Err::<HttpRequestView, Error>(e),
                },
            },
    {
        let path = ["feeds"];
        proof {
            assert(path.deep_view() =~= seq!["feeds"@]);
        }
        self.get_entity(&path, None::<&EmptyUrlParams>)
    }

    /// Builds the GET for the notification listing, with the given
    /// parameters.  The response is decoded into bound
    /// [`crate::entities::notifications::Thread`] values with
    /// [`crate::client::Client::get_entities`].
    pub fn get_notifications(&self, params: Option<&Params>) -> (r: Result<HttpRequest, Error>)
        ensures
            match Self::spec_client_of(self@) {
                None => r matches Err(e) && e == Error::UninitializedEntity,
                Some(c) => match r {
                    Ok(req) => spec_request(
                        c,
                        Method::Get,
                        seq!["notifications"@],
                        spec_params_of(params),
                        None,
                    ) == Ok::<HttpRequestView, Error>(req@),
                    Err(e) => spec_request(
                        c,
                        Method::Get,
                        seq!["notifications"@],
                        spec_params_of(params),
                        None,
                    ) == Err::<HttpRequestView, Error>(e),
                },
            },
    {
        let path = ["notifications"];
        proof {
            assert(path.deep_view() =~= seq!["notifications"@]);
        }
        self.get_entity(&path, params)
    }
}

} // verus!
