//! Plain value types for HTTP requests and responses.
//!
//! The client never performs a network round trip itself: every
//! gateway method returns the exact [`HttpRequest`] to perform, and
//! the caller hands the raw [`Response`] envelope back for decoding.

use vstd::prelude::*;

verus! {

/// The verbs the client issues.  The modeled API surface uses no
/// POST or DELETE.
#[derive(Debug, Clone, Copy, PartialEq, Eq, Structural)]
pub enum Method {
    Get,
    Put,
    Patch,
}

/// One fully prepared outgoing request: the verb, the final URL, the
/// complete header set, and the serialized body for PUT and PATCH.
#[derive(Debug)]
pub struct HttpRequest {
    pub method: Method,
    pub url: String,
    pub headers: Vec<(String, String)>,
    pub body: Option<String>,
}

/// The mathematical value of an [`HttpRequest`].
pub struct HttpRequestView {
    pub method: Method,
    pub url: Seq<char>,
    pub headers: Seq<(Seq<char>, Seq<char>)>,
    pub body: Option<Seq<char>>,
}

impl View for HttpRequest {
    type V = HttpRequestView;

    open spec fn view(&self) -> HttpRequestView {
        HttpRequestView {
            method: self.method,
            url: self.url@,
            headers: self.headers.deep_view(),
            body: self.body.deep_view(),
        }
    }
}

/// The raw envelope of one HTTP response: status code, response
/// headers, and the undecoded body text.  It is returned alongside
/// decoded resources so callers needing the raw status or headers are
/// not blocked.
#[derive(Debug)]
pub struct Response {
    pub status: u16,
    pub headers: Vec<(String, String)>,
    pub body: String,
}

/// The mathematical value of a [`Response`].
pub struct ResponseView {
    pub status: u16,
    pub headers: Seq<(Seq<char>, Seq<char>)>,
    pub body: Seq<char>,
}

impl View for Response {
    type V = ResponseView;

    open spec fn view(&self) -> ResponseView {
        ResponseView { status: self.status, headers: self.headers.deep_view(), body: self.body@ }
    }
}

} // verus!
