//! The two-phase resource lifecycle.
//!
//! Every resource is either unbound — freshly constructed, no client
//! back-reference, forbidden to issue calls — or bound to the client
//! that populated it, in which case it can issue further calls scoped
//! to itself.  The bound-check precedes everything else: an
//! entity-scoped call on an unbound resource fails with
//! `UninitializedEntity` before any request exists, so no network
//! activity can take place.

use vstd::prelude::*;

use crate::client::{spec_params_of, spec_request, AsUrlParams, Client, ClientView, Path};
use crate::errors::Error;
use crate::http::{HttpRequest, HttpRequestView, Method};
use crate::json::Json;

verus! {

/// A resource with the two-phase lifecycle.  Implementors provide
/// the back-reference accessors and the decoder; the entity-scoped
/// request builders are shared.
pub trait Entity: View + Sized {
    /// The bound client of a resource view, `None` while unbound.
    spec fn spec_client_of(v: Self::V) -> Option<ClientView>;

    /// Whether two views agree on every wire field — everything but
    /// the client back-reference.
    spec fn wire_eq(a: Self::V, b: Self::V) -> bool;

    /// What decoding a JSON document into this resource yields: the
    /// unbound resource's view, or `None` where the document does
    /// not fit the resource's shape.
    spec fn spec_decode(j: Json) -> Option<Self::V>;

    /// The bound client, `None` while the resource is unbound.
    fn get_client(&self) -> (r: Option<&Client>)
        ensures
            match r {
                Some(c) => Self::spec_client_of(self@) == Some(c@),
                None => Self::spec_client_of(self@) is None,
            },
    ;

    /// Binds the resource to `client`, leaving every wire field as
    /// it was.
    fn set_client(&mut self, client: &Client)
        ensures
            Self::spec_client_of(final(self)@) == Some(client@),
            Self::wire_eq(final(self)@, old(self)@),
    ;

    /// Decodes a JSON document into a fresh, unbound resource.
    fn decode(j: &Json) -> (r: Result<Self, Error>)
        ensures
            match r {
                Ok(e) => Self::spec_decode(*j) == Some(e@) && Self::spec_client_of(e@) is None,
                Err(err) => err == Error::DecodeError && Self::spec_decode(*j) is None,
            },
    ;

    /// Builds the GET request for `path` and `params` through the
    /// bound client.  On an unbound resource this fails with
    /// `UninitializedEntity` before any request exists.
    fn get_entity<P: Path, Q: AsUrlParams>(&self, path: &P, params: Option<&Q>) -> (r: Result<
        HttpRequest,
        Error,
    >)
        ensures
            match Self::spec_client_of(self@) {
                None => r matches Err(e) && e == Error::UninitializedEntity,
                Some(c) => match r {
                    Ok(req) => spec_request(
                        c,
                        Method::Get,
                        path.path_view(),
                        spec_params_of(params),
                        None,
                    ) == Ok::<HttpRequestView, Error>(req@),
                    Err(e) => spec_request(
                        c,
                        Method::Get,
                        path.path_view(),
                        spec_params_of(params),
                        None,
                    ) == Err::<HttpRequestView, Error>(e),
                },
            },
    {
        match self.get_client() {
            Some(client) => client.get(path, params),
            None => Err(Error::UninitializedEntity),
        }
    }

    /// Builds the PUT request for `path` with the serialized
    /// `payload` through the bound client.  On an unbound resource
    /// this fails with `UninitializedEntity` before any request
    /// exists.
    fn put<P: Path>(&self, path: &P, payload: String) -> (r: Result<HttpRequest, Error>)
        ensures
            match Self::spec_client_of(self@) {
                None => r matches Err(e) && e == Error::UninitializedEntity,
                Some(c) => match r {
                    Ok(req) => spec_request(
                        c,
                        Method::Put,
                        path.path_view(),
                        Seq::empty(),
                        Some(payload@),
                    ) == Ok::<HttpRequestView, Error>(req@),
                    Err(e) => spec_request(
                        c,
                        Method::Put,
                        path.path_view(),
                        Seq::empty(),
                        Some(payload@),
                    ) == Err::<HttpRequestView, Error>(e),
                },
            },
    {
        match self.get_client() {
            Some(client) => client.put(path, payload),
            None => Err(Error::UninitializedEntity),
        }
    }

    /// Builds the PATCH request for `path` with the serialized
    /// `payload` through the bound client.  On an unbound resource
    /// this fails with `UninitializedEntity` before any request
    /// exists.
    fn patch<P: Path>(&self, path: &P, payload: String) -> (r: Result<HttpRequest, Error>)
        ensures
            match Self::spec_client_of(self@) {
                None => r matches Err(e) && e == Error::UninitializedEntity,
                Some(c) => match r {
                    Ok(req) => spec_request(
                        c,
                        Method::Patch,
                        path.path_view(),
                        Seq::empty(),
                        Some(payload@),
                    ) == Ok::<HttpRequestView, Error>(req@),
                    Err(e) => spec_request(
                        c,
                        Method::Patch,
                        path.path_view(),
                        Seq::empty(),
                        Some(payload@),
                    ) == Err::<HttpRequestView, Error>(e),
                },
            },
    {
        match self.get_client() {
            Some(client) => client.patch(path, payload),
            None => Err(Error::UninitializedEntity),
        }
    }
}

} // verus!
