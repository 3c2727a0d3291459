//! The fixed header set attached to every outgoing request.
//!
//! Every request carries exactly three headers: `Authorization` with
//! HTTP Basic credentials, a fixed `Accept` media type asking for the
//! raw-JSON representation, and a fixed `User-Agent`.  The base64
//! step of Basic authentication is the base64 crate's; the header set
//! itself is assembled and pinned down here.

use vstd::prelude::*;

use base64::Engine;

verus! {

/// The standard base64 encoding of the UTF-8 bytes of `s`.
pub uninterp spec fn b64(s: Seq<char>) -> Seq<char>;

/// The string whose standard base64 encoding is `e`, where there is
/// one.  Named only so that the losslessness of the encoding can be
/// stated of each encoder result.
pub uninterp spec fn b64_source(e: Seq<char>) -> Option<Seq<char>>;

/// Relies on `base64::engine::general_purpose::STANDARD.encode`:
/// standard base64 with padding over the UTF-8 bytes, a deterministic
/// function of the input.  Decoding the result yields the input
/// bytes back, so the encoding is lossless.
#[verifier::external_body]
fn b64_encode(s: &str) -> (r: String)
    ensures
        r@ == b64(s@),
        b64_source(r@) == Some(s@),
{
    base64::engine::general_purpose::STANDARD.encode(s)
}

/// The media type every request asks for: the raw-JSON
/// representation of the modeled API, version 3.
pub open spec fn spec_accept_value() -> Seq<char> {
    "application/vnd.github.v3.raw+json"@
}

/// The fixed client identifier sent as `User-Agent`.
pub open spec fn spec_user_agent_value() -> Seq<char> {
    "gh-rs-cli/0.0.1"@
}

/// The `user:password` string that HTTP Basic authentication encodes.
pub open spec fn spec_basic_credentials(username: Seq<char>, password: Seq<char>) -> Seq<char> {
    username + ":"@ + password
}

/// The value of the `Authorization` header for the given credentials.
pub open spec fn spec_authorization_value(username: Seq<char>, password: Seq<char>) -> Seq<char> {
    "Basic "@ + b64(spec_basic_credentials(username, password))
}

/// Exactly the three headers attached to every request, in order:
/// `Authorization`, `Accept`, `User-Agent`.
pub open spec fn spec_headers(username: Seq<char>, password: Seq<char>) -> Seq<
    (Seq<char>, Seq<char>),
> {
    seq![
        ("Authorization"@, spec_authorization_value(username, password)),
        ("Accept"@, spec_accept_value()),
        ("User-Agent"@, spec_user_agent_value()),
    ]
}

/// Builds the header set, exactly as [`spec_headers`] describes.
pub fn build_headers(username: &str, password: &str) -> (r: Vec<(String, String)>)
    ensures
        r.deep_view() == spec_headers(username@, password@),
{
    let mut creds = username.to_owned();
    creds.append(":");
    creds.append(password);
    let mut auth = String::from_str("Basic ");
    let encoded = b64_encode(creds.as_str());
    auth.append(encoded.as_str());
    let mut headers: Vec<(String, String)> = Vec::new();
    headers.push((String::from_str("Authorization"), auth));
    headers.push((String::from_str("Accept"), String::from_str(
        "application/vnd.github.v3.raw+json",
    )));
    headers.push((String::from_str("User-Agent"), String::from_str("gh-rs-cli/0.0.1")));
    proof {
        assert(headers.deep_view() =~= spec_headers(username@, password@));
    }
    headers
}

/// Distinct credential pairs, with colon-free usernames, give the
/// Basic-authentication step distinct inputs; since the encoding is
/// lossless, the `Authorization` header differs between the two on
/// the next call that builds headers.  Headers already produced are
/// values and are unaffected by any later change of credentials.
pub proof fn lemma_credentials_pin_authorization(
    u1: Seq<char>,
    p1: Seq<char>,
    u2: Seq<char>,
    p2: Seq<char>,
)
    requires
        !u1.contains(':'),
        !u2.contains(':'),
        u1 != u2 || p1 != p2,
    ensures
        spec_basic_credentials(u1, p1) != spec_basic_credentials(u2, p2),
{
    reveal_strlit(":");
    let c1 = spec_basic_credentials(u1, p1);
    let c2 = spec_basic_credentials(u2, p2);
    if c1 == c2 {
        assert(":"@.len() == 1 && ":"@[0] == ':');
        assert(c1.len() == u1.len() + 1 + p1.len());
        assert(c2.len() == u2.len() + 1 + p2.len());
        assert(c1[u1.len() as int] == ':');
        assert(c2[u2.len() as int] == ':');
        if u1.len() < u2.len() {
            // The colon that ends u1 falls inside u2.
            assert(c2[u1.len() as int] == u2[u1.len() as int]);
            assert(u2.contains(':')) by {
                assert(u2[u1.len() as int] == ':');
            }
            assert(false);
        } else if u2.len() < u1.len() {
            // The colon that ends u2 falls inside u1.
            assert(c1[u2.len() as int] == u1[u2.len() as int]);
            assert(u1.contains(':')) by {
                assert(u1[u2.len() as int] == ':');
            }
            assert(false);
        } else {
            assert(u1 =~= u2) by {
                assert(forall|i: int| 0 <= i < u1.len() ==> u1[i] == c1[i] && u2[i] == c2[i]);
            }
            assert(p1 =~= p2) by {
                assert(forall|i: int|
                    0 <= i < p1.len() ==> p1[i] == c1[u1.len() + 1 + i] && p2[i] == c2[u2.len() + 1
                        + i]);
            }
            assert(false);
        }
    }
}

} // verus!
