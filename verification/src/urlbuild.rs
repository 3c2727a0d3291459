//! Building request URLs.
//!
//! A request URL is formed from a base URL by resolving each path
//! segment in order against the URL accumulated so far — standard
//! relative-reference resolution, so a segment may replace the
//! trailing path component of the previous result — and then
//! appending the query parameters.  Parsing, resolution and query
//! encoding are the url crate's; everything around them is verified
//! against the names given to those operations here.

use vstd::prelude::*;

use crate::errors::Error;

verus! {

/// The serialization of the URL that `url::Url::parse` returns on
/// `s`, or `None` where parsing fails.
pub uninterp spec fn url_parse(s: Seq<char>) -> Option<Seq<char>>;

/// The serialization of the URL obtained by parsing `base` as an
/// absolute URL and resolving `seg` against it with `url::Url::join`,
/// or `None` where either step fails.
pub uninterp spec fn url_join(base: Seq<char>, seg: Seq<char>) -> Option<Seq<char>>;

/// The serialization of the URL obtained by parsing `base` and
/// appending `params` to its query string with
/// `url::Url::parse_with_params`, or `None` where parsing fails.
/// With no pairs the query string becomes present but empty.
pub uninterp spec fn url_with_params(
    base: Seq<char>,
    params: Seq<(Seq<char>, Seq<char>)>,
) -> Option<Seq<char>>;

/// Relies on `url::Url::parse`: WHATWG URL parsing, a deterministic
/// function of the input string.
#[verifier::external_body]
pub(crate) fn parse_url(s: &str) -> (r: Option<String>)
    ensures
        r is Some <==> url_parse(s@) is Some,
        r matches Some(u) ==> url_parse(s@) == Some(u@),
{
    match url::Url::parse(s) {
        Ok(u) => Some(u.as_str().to_owned()),
        Err(_) => None,
    }
}

/// Relies on `url::Url::join`: relative-reference resolution of
/// `seg` against `base`, a deterministic function of the two strings.
/// The base string is re-parsed to a `Url` value first.
#[verifier::external_body]
fn join_url(base: &str, seg: &str) -> (r: Option<String>)
    ensures
        r is Some <==> url_join(base@, seg@) is Some,
        r matches Some(u) ==> url_join(base@, seg@) == Some(u@),
{
    match url::Url::parse(base) {
        Ok(b) => match b.join(seg) {
            Ok(u) => Some(u.as_str().to_owned()),
            Err(_) => None,
        },
        Err(_) => None,
    }
}

/// Relies on `url::Url::parse_with_params`: parses `base` and appends
/// exactly the given pairs, in order, to its query string in
/// `application/x-www-form-urlencoded` form.  Deterministic in its
/// arguments.
#[verifier::external_body]
fn with_params_url(base: &str, params: &Vec<(String, String)>) -> (r: Option<String>)
    ensures
        r is Some <==> url_with_params(base@, params.deep_view()) is Some,
        r matches Some(u) ==> url_with_params(base@, params.deep_view()) == Some(u@),
{
    match url::Url::parse_with_params(base, params.iter().map(|p| (p.0.as_str(), p.1.as_str()))) {
        Ok(u) => Some(u.as_str().to_owned()),
        Err(_) => None,
    }
}

/// The successive relative-join of `segs` onto `base`, where `base`
/// is already a parsed URL's serialization (or `None` where an
/// earlier step failed).
pub open spec fn spec_join_segments(base: Option<Seq<char>>, segs: Seq<Seq<char>>) -> Option<
    Seq<char>,
>
    decreases segs.len(),
{
    if segs.len() == 0 {
        base
    } else {
        match base {
            None => None,
            Some(b) => spec_join_segments(url_join(b, segs[0]), segs.drop_first()),
        }
    }
}

/// What building a URL from `base`, the ordered `segs` and the
/// ordered pairs `params` yields: the base is parsed, each segment is
/// resolved in order against the URL so far, and the parameters are
/// appended to the query string.  Any failing step is a
/// `MalformedUrl` error.
pub open spec fn spec_build(
    base: Seq<char>,
    segs: Seq<Seq<char>>,
    params: Seq<(Seq<char>, Seq<char>)>,
) -> Result<Seq<char>, Error> {
    match spec_join_segments(url_parse(base), segs) {
        None => Err(Error::MalformedUrl),
        Some(joined) => match url_with_params(joined, params) {
            None => Err(Error::MalformedUrl),
            Some(u) => Ok(u),
        },
    }
}

/// Builds the request URL from a base URL, ordered path segments and
/// query parameters, exactly as [`spec_build`] describes.
pub fn build_url(base: &str, segments: &Vec<String>, params: &Vec<(String, String)>) -> (r: Result<
    String,
    Error,
>)
    ensures
        match r {
            Ok(u) => spec_build(base@, segments.deep_view(), params.deep_view()) == Ok::<
                Seq<char>,
                Error,
            >(u@),
            Err(e) => spec_build(base@, segments.deep_view(), params.deep_view()) == Err::<
                Seq<char>,
                Error,
            >(e),
        },
{
    let ghost segs: Seq<Seq<char>> = segments.deep_view();
    let mut cur: String = match parse_url(base) {
        Some(u) => u,
        None => {
            return Err(Error::MalformedUrl);
        },
    };
    proof {
        assert(segs.skip(0) =~= segs);
    }
    let mut i: usize = 0;
    while i < segments.len()
        invariant
            i <= segments.len(),
            segs == segments.deep_view(),
            spec_join_segments(url_parse(base@), segs) == spec_join_segments(
                Some(cur@),
                segs.skip(i as int),
            ),
        decreases segments.len() - i,
    {
        proof {
            assert(segs.skip(i as int)[0] == segs[i as int]);
            assert(segs.skip(i as int).drop_first() =~= segs.skip(i as int + 1));
        }
        match join_url(cur.as_str(), segments[i].as_str()) {
            Some(u) => {
                cur = u;
            },
            None => {
                proof {
                    assert(spec_join_segments(Some(cur@), segs.skip(i as int))
                        == spec_join_segments(None, segs.skip(i as int).drop_first()));
                    assert(spec_join_segments(None, segs.skip(i as int).drop_first()) is None);
                }
                return Err(Error::MalformedUrl);
            },
        }
        i = i + 1;
    }
    proof {
        assert(segs.skip(i as int) =~= Seq::<Seq<char>>::empty());
    }
    match with_params_url(cur.as_str(), params) {
        Some(u) => Ok(u),
        None => Err(Error::MalformedUrl),
    }
}

} // verus!
