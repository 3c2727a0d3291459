//! The client: credentials, base URL, and the construction of every
//! outgoing request.
//!
//! The client owns the configured base URL and credentials for its
//! whole lifetime; both are immutable after construction.  Each verb
//! method builds one complete [`HttpRequest`] — final URL from the
//! path segments and query parameters, the fixed header triple, and
//! the body for PUT and PATCH.  Performing the request is the
//! caller's affair; decoding the response body into a resource is
//! [`Client::get_entity`]'s.

use vstd::prelude::*;

use crate::auth::{build_headers, spec_headers};
use crate::entity::Entity;
use crate::errors::Error;
use crate::http::{HttpRequest, HttpRequestView, Method, Response};
use crate::json::{json_parsed, parse_json, Json};
use crate::urlbuild::{build_url, parse_url, spec_build, url_parse};

verus! {

/// An ordered sequence of path segments, however supplied: a
/// growable vector or a fixed-length array, of owned or borrowed
/// strings.  Join order is call order; there is no other invariant.
pub trait Path {
    /// The ordered segment strings.
    spec fn path_view(&self) -> Seq<Seq<char>>;

    /// The segments as one owned vector, in order.
    fn to_segments(&self) -> (r: Vec<String>)
        ensures
            r.deep_view() == self.path_view(),
    ;
}

impl Path for Vec<String> {
    open spec fn path_view(&self) -> Seq<Seq<char>> {
        self.deep_view()
    }

    fn to_segments(&self) -> (r: Vec<String>) {
        let mut r: Vec<String> = Vec::new();
        let mut i: usize = 0;
        while i < self.len()
            invariant
                i <= self.len(),
                r.len() == i,
                forall|k: int| 0 <= k < i ==> r@[k]@ == self@[k]@,
            decreases self.len() - i,
        {
            r.push(self[i].clone());
            i = i + 1;
        }
        proof {
            assert(r.deep_view() =~= self.deep_view());
        }
        r
    }
}

impl Path for Vec<&str> {
    open spec fn path_view(&self) -> Seq<Seq<char>> {
        self.deep_view()
    }

    fn to_segments(&self) -> (r: Vec<String>) {
        let mut r: Vec<String> = Vec::new();
        let mut i: usize = 0;
        while i < self.len()
            invariant
                i <= self.len(),
                r.len() == i,
                forall|k: int| 0 <= k < i ==> r@[k]@ == self@[k]@,
            decreases self.len() - i,
        {
            r.push(self[i].to_owned());
            i = i + 1;
        }
        proof {
            assert(r.deep_view() =~= self.deep_view());
        }
        r
    }
}

impl<const N: usize> Path for [&str; N] {
    open spec fn path_view(&self) -> Seq<Seq<char>> {
        self.deep_view()
    }

    fn to_segments(&self) -> (r: Vec<String>) {
        let mut r: Vec<String> = Vec::new();
        let mut i: usize = 0;
        while i < N
            invariant
                self@.len() == N,
                i <= N,
                r.len() == i,
                forall|k: int| 0 <= k < i ==> r@[k]@ == self@[k]@,
            decreases N - i,
        {
            r.push((*vstd::array::array_index_get(self, i)).to_owned());
            i = i + 1;
        }
        proof {
            assert(r.deep_view() =~= self.deep_view());
        }
        r
    }
}

impl<const N: usize> Path for [String; N] {
    open spec fn path_view(&self) -> Seq<Seq<char>> {
        self.deep_view()
    }

    fn to_segments(&self) -> (r: Vec<String>) {
        let mut r: Vec<String> = Vec::new();
        let mut i: usize = 0;
        while i < N
            invariant
                self@.len() == N,
                i <= N,
                r.len() == i,
                forall|k: int| 0 <= k < i ==> r@[k]@ == self@[k]@,
            decreases N - i,
        {
            r.push(vstd::array::array_index_get(self, i).clone());
            i = i + 1;
        }
        proof {
            assert(r.deep_view() =~= self.deep_view());
        }
        r
    }
}

/// An unordered collection of query-parameter pairs.  Absence of a
/// key means "not sent", never "sent empty".
pub trait AsUrlParams {
    /// The pairs, in the order they will be appended.
    spec fn params_view(&self) -> Seq<(Seq<char>, Seq<char>)>;

    /// The pairs as one owned vector.
    fn as_url_params(&self) -> (r: Vec<(String, String)>)
        ensures
            r.deep_view() == self.params_view(),
    ;
}

impl AsUrlParams for Vec<(String, String)> {
    open spec fn params_view(&self) -> Seq<(Seq<char>, Seq<char>)> {
        self.deep_view()
    }

    fn as_url_params(&self) -> (r: Vec<(String, String)>) {
        let mut r: Vec<(String, String)> = Vec::new();
        let mut i: usize = 0;
        while i < self.len()
            invariant
                i <= self.len(),
                r.len() == i,
                forall|k: int| 0 <= k < i ==> r@[k].0@ == self@[k].0@ && r@[k].1@ == self@[k].1@,
            decreases self.len() - i,
        {
            r.push((self[i].0.clone(), self[i].1.clone()));
            i = i + 1;
        }
        proof {
            assert(r.deep_view() =~= self.deep_view());
        }
        r
    }
}

impl AsUrlParams for Vec<(&str, &str)> {
    open spec fn params_view(&self) -> Seq<(Seq<char>, Seq<char>)> {
        self.deep_view()
    }

    fn as_url_params(&self) -> (r: Vec<(String, String)>) {
        let mut r: Vec<(String, String)> = Vec::new();
        let mut i: usize = 0;
        while i < self.len()
            invariant
                i <= self.len(),
                r.len() == i,
                forall|k: int| 0 <= k < i ==> r@[k].0@ == self@[k].0@ && r@[k].1@ == self@[k].1@,
            decreases self.len() - i,
        {
            r.push((self[i].0.to_owned(), self[i].1.to_owned()));
            i = i + 1;
        }
        proof {
            assert(r.deep_view() =~= self.deep_view());
        }
        r
    }
}

/// The explicit "no query parameters" sentinel.
pub struct EmptyUrlParams;

impl AsUrlParams for EmptyUrlParams {
    open spec fn params_view(&self) -> Seq<(Seq<char>, Seq<char>)> {
        Seq::empty()
    }

    fn as_url_params(&self) -> (r: Vec<(String, String)>) {
        let r: Vec<(String, String)> = Vec::new();
        proof {
            assert(r.deep_view() =~= Seq::<(Seq<char>, Seq<char>)>::empty());
        }
        r
    }
}

/// The query parameters of an optional parameter collection: an
/// absent collection sends none, exactly as an empty one does.
pub open spec fn spec_params_of<Q: AsUrlParams>(params: Option<&Q>) -> Seq<
    (Seq<char>, Seq<char>),
> {
    match params {
        Some(q) => q.params_view(),
        None => Seq::empty(),
    }
}

/// The configured client: credentials and base URL, immutable after
/// construction.
#[derive(Debug)]
pub struct Client {
    username: String,
    password: String,
    url: String,
}

/// The mathematical value of a [`Client`].
pub struct ClientView {
    pub username: Seq<char>,
    pub password: Seq<char>,
    pub url: Seq<char>,
}

impl View for Client {
    type V = ClientView;

    closed spec fn view(&self) -> ClientView {
        ClientView { username: self.username@, password: self.password@, url: self.url@ }
    }
}

impl Clone for Client {
    /// A clone carries the same credentials and base URL.
    fn clone(&self) -> (r: Self)
        ensures
            r@ == self@,
    {
        Client {
            username: self.username.clone(),
            password: self.password.clone(),
            url: self.url.clone(),
        }
    }
}

/// The one request a verb method yields: the URL built from the
/// client's base URL, segments and parameters; the client's fixed
/// header set; and the given body.  A URL-building failure is the
/// request's failure.
pub open spec fn spec_request(
    c: ClientView,
    method: Method,
    segs: Seq<Seq<char>>,
    params: Seq<(Seq<char>, Seq<char>)>,
    body: Option<Seq<char>>,
) -> Result<HttpRequestView, Error> {
    match spec_build(c.url, segs, params) {
        Err(e) => Err(e),
        Ok(u) => Ok(
            HttpRequestView {
                method,
                url: u,
                headers: spec_headers(c.username, c.password),
                body,
            },
        ),
    }
}

impl Client {
    /// Constructs a client.  Fails fast with `MalformedUrl` when the
    /// base URL does not parse; no network activity is involved.
    pub fn new(username: String, password: String, url: String) -> (r: Result<Client, Error>)
        ensures
            match r {
                Ok(c) => url_parse(url@) is Some && c@ == (ClientView {
                    username: username@,
                    password: password@,
                    url: url@,
                }),
                Err(e) => e == Error::MalformedUrl && url_parse(url@) is None,
            },
    {
        match parse_url(url.as_str()) {
            Some(_) => Ok(Client { username, password, url }),
            None => Err(Error::MalformedUrl),
        }
    }

    /// The header triple attached to every outgoing request, built
    /// fresh from the stored credentials on each call.
    pub fn get_headers(&self) -> (r: Vec<(String, String)>)
        ensures
            r.deep_view() == spec_headers(self@.username, self@.password),
    {
        build_headers(self.username.as_str(), self.password.as_str())
    }

    /// Builds the request URL from the client's base URL and the
    /// given path segments and parameters.
    pub fn get_url<P: Path, Q: AsUrlParams>(&self, path: &P, params: Option<&Q>) -> (r: Result<
        String,
        Error,
    >)
        ensures
            match r {
                Ok(u) => spec_build(self@.url, path.path_view(), spec_params_of(params)) == Ok::<
                    Seq<char>,
                    Error,
                >(u@),
                Err(e) => spec_build(self@.url, path.path_view(), spec_params_of(params)) == Err::<
                    Seq<char>,
                    Error,
                >(e),
            },
    {
        let segments = path.to_segments();
        let ps: Vec<(String, String)> = match params {
            Some(q) => q.as_url_params(),
            None => {
                let v: Vec<(String, String)> = Vec::new();
                proof {
                    assert(v.deep_view() =~= Seq::<(Seq<char>, Seq<char>)>::empty());
                }
                v
            },
        };
        build_url(self.url.as_str(), &segments, &ps)
    }

    /// Builds the GET request for the given path and parameters.
    pub fn get<P: Path, Q: AsUrlParams>(&self, path: &P, params: Option<&Q>) -> (r: Result<
        HttpRequest,
        Error,
    >)
        ensures
            match r {
                Ok(req) => spec_request(
                    self@,
                    Method::Get,
                    path.path_view(),
                    spec_params_of(params),
                    None,
                ) == Ok::<HttpRequestView, Error>(req@),
                Err(e) => spec_request(
                    self@,
                    Method::Get,
                    path.path_view(),
                    spec_params_of(params),
                    None,
                ) == Err::<HttpRequestView, Error>(e),
            },
    {
        let url = self.get_url(path, params)?;
        Ok(HttpRequest { method: Method::Get, url, headers: self.get_headers(), body: None })
    }

    /// Builds the PUT request for the given path, carrying the
    /// already-serialized `payload` as its body.  PUT and PATCH
    /// requests append an empty query string, exactly as an explicit
    /// empty parameter set would.
    pub fn put<P: Path>(&self, path: &P, payload: String) -> (r: Result<HttpRequest, Error>)
        ensures
            match r {
                Ok(req) => spec_request(
                    self@,
                    Method::Put,
                    path.path_view(),
                    Seq::empty(),
                    Some(payload@),
                ) == Ok::<HttpRequestView, Error>(req@),
                Err(e) => spec_request(
                    self@,
                    Method::Put,
                    path.path_view(),
                    Seq::empty(),
                    Some(payload@),
                ) == Err::<HttpRequestView, Error>(e),
            },
    {
        let url = self.get_url(path, Some(&EmptyUrlParams))?;
        Ok(
            HttpRequest {
                method: Method::Put,
                url,
                headers: self.get_headers(),
                body: Some(payload),
            },
        )
    }

    /// Builds the PATCH request for the given path, carrying the
    /// already-serialized `payload` as its body.  Partial-update
    /// semantics are the payload's responsibility: it should omit
    /// unset fields rather than send nulls.
    pub fn patch<P: Path>(&self, path: &P, payload: String) -> (r: Result<HttpRequest, Error>)
        ensures
            match r {
                Ok(req) => spec_request(
                    self@,
                    Method::Patch,
                    path.path_view(),
                    Seq::empty(),
                    Some(payload@),
                ) == Ok::<HttpRequestView, Error>(req@),
                Err(e) => spec_request(
                    self@,
                    Method::Patch,
                    path.path_view(),
                    Seq::empty(),
                    Some(payload@),
                ) == Err::<HttpRequestView, Error>(e),
            },
    {
        let url = self.get_url(path, Some(&EmptyUrlParams))?;
        Ok(
            HttpRequest {
                method: Method::Patch,
                url,
                headers: self.get_headers(),
                body: Some(payload),
            },
        )
    }
}

/// What decoding a response body into one resource of type `E`
/// yields: the body parsed as JSON, then decoded by the resource's
/// own rules; `None` where either step fails.
pub open spec fn spec_decoded_body<E: Entity>(body: Seq<char>) -> Option<E::V> {
    match json_parsed(body) {
        None => None,
        Some(j) => E::spec_decode(j),
    }
}

/// What decoding each element of a JSON array into a resource of
/// type `E` yields; `None` where any element fails.
pub open spec fn spec_decode_items<E: Entity>(items: Seq<Json>) -> Option<Seq<E::V>>
    decreases items.len(),
{
    if items.len() == 0 {
        Some(Seq::empty())
    } else {
        match (E::spec_decode(items[0]), spec_decode_items::<E>(items.drop_first())) {
            (Some(v), Some(rest)) => Some(seq![v] + rest),
            _ => None,
        }
    }
}

/// What decoding a response body into a sequence of resources of
/// type `E` yields: the body must be a JSON array, and every element
/// is independently decoded by the resource's own rules.
pub open spec fn spec_decoded_body_many<E: Entity>(body: Seq<char>) -> Option<Seq<E::V>> {
    match json_parsed(body) {
        Some(Json::Arr(items)) => spec_decode_items::<E>(items@),
        _ => None,
    }
}

impl Client {
    /// Decodes a GET response body into `entity`, overwriting every
    /// wire field in place, and binds it to this client — one atomic
    /// step from the caller's side: the entity is never observable
    /// populated-but-unbound or bound-but-unpopulated.  On failure
    /// the entity is untouched.
    pub fn get_entity<E: Entity>(&self, resp: &Response, entity: &mut E) -> (r: Result<(), Error>)
        ensures
            match r {
                Ok(()) => {
                    &&& spec_decoded_body::<E>(resp@.body) matches Some(v) && E::wire_eq(
                        final(entity)@,
                        v,
                    )
                    &&& E::spec_client_of(final(entity)@) == Some(self@)
                },
                Err(e) => {
                    &&& e == Error::DecodeError
                    &&& spec_decoded_body::<E>(resp@.body) is None
                    &&& *final(entity) == *old(entity)
                },
            },
    {
        match parse_json(resp.body.as_str()) {
            None => Err(Error::DecodeError),
            Some(j) => match E::decode(&j) {
                Ok(e) => {
                    *entity = e;
                    entity.set_client(self);
                    Ok(())
                },
                Err(err) => Err(err),
            },
        }
    }

    /// Decodes a GET response body as a JSON array into `entities`,
    /// each element by the resource's own rules, and binds every
    /// element to this client.  On failure the vector is untouched.
    pub fn get_entities<E: Entity>(&self, resp: &Response, entities: &mut Vec<E>) -> (r: Result<
        (),
        Error,
    >)
        ensures
            match r {
                Ok(()) => {
                    &&& spec_decoded_body_many::<E>(resp@.body) matches Some(vs) && {
                        &&& final(entities)@.len() == vs.len()
                        &&& forall|k: int|
                            0 <= k < vs.len() ==> E::wire_eq(#[trigger] final(entities)@[k]@, vs[k])
                                && E::spec_client_of(final(entities)@[k]@) == Some(self@)
                    }
                },
                Err(e) => {
                    &&& e == Error::DecodeError
                    &&& spec_decoded_body_many::<E>(resp@.body) is None
                    &&& *final(entities) == *old(entities)
                },
            },
    {
        match parse_json(resp.body.as_str()) {
            Some(Json::Arr(items)) => {
                let mut out: Vec<E> = Vec::new();
                let ghost mut dvs: Seq<E::V> = Seq::empty();
                proof {
                    assert(items@.skip(0) =~= items@);
                    assert(forall|rest: Seq<E::V>| Seq::<E::V>::empty() + rest =~= rest);
                }
                let mut i: usize = 0;
                while i < items.len()
                    invariant
                        json_parsed(resp@.body) == Some(Json::Arr(items)),
                        i <= items.len(),
                        out.len() == i,
                        dvs.len() == i,
                        spec_decode_items::<E>(items@) == match spec_decode_items::<E>(
                            items@.skip(i as int),
                        ) {
                            Some(rest) => Some(dvs + rest),
                            None => None::<Seq<E::V>>,
                        },
                        forall|k: int|
                            0 <= k < i ==> E::wire_eq(#[trigger] out@[k]@, dvs[k])
                                && E::spec_client_of(out@[k]@) == Some(self@),
                    decreases items.len() - i,
                {
                    proof {
                        assert(items@.skip(i as int)[0] == items@[i as int]);
                        assert(items@.skip(i as int).drop_first() =~= items@.skip(i as int + 1));
                    }
                    match E::decode(&items[i]) {
                        Ok(mut e) => {
                            let ghost v = e@;
                            e.set_client(self);
                            out.push(e);
                            proof {
                                dvs = dvs.push(v);
                                assert(forall|rest: Seq<E::V>|
                                    dvs.drop_last() + (seq![v] + rest) =~= dvs + rest);
                            }
                        },
                        Err(_) => {
                            proof {
                                assert(spec_decode_items::<E>(items@.skip(i as int)) is None);
                            }
                            return Err(Error::DecodeError);
                        },
                    }
                    i = i + 1;
                }
                proof {
                    assert(items@.skip(i as int) =~= Seq::<Json>::empty());
                    assert(dvs + Seq::<E::V>::empty() =~= dvs);
                }
                *entities = out;
                Ok(())
            },
            _ => Err(Error::DecodeError),
        }
    }
}

/// An absent parameter collection sends exactly what the explicit
/// "no parameters" sentinel does: no pairs at all, so the two build
/// identical URLs.
pub proof fn lemma_absent_params_match_empty<Q: AsUrlParams>(q: &EmptyUrlParams)
    ensures
        spec_params_of::<Q>(None) == q.params_view(),
{
}

/// The built request is a function of the segment and parameter
/// values alone: two path collections of any shapes that hold the
/// same ordered segment strings give the same URL, whatever
/// parameters accompany them.
pub proof fn lemma_path_shape_invariance<A: Path, B: Path>(
    c: ClientView,
    p1: &A,
    p2: &B,
    params: Seq<(Seq<char>, Seq<char>)>,
)
    requires
        p1.path_view() == p2.path_view(),
    ensures
        spec_build(c.url, p1.path_view(), params) == spec_build(c.url, p2.path_view(), params),
{
}

} // verus!
