//! The error taxonomy of the client.

use vstd::prelude::*;

verus! {

/// Everything that a call into the client can fail with.
///
/// `MalformedUrl` is raised synchronously while a request URL is
/// built, before any network attempt.  `TransportError` stands for a
/// failed HTTP round trip and is produced by the code that performs
/// the transport; the core only forwards it.  `DecodeError` means a
/// response body was not valid JSON or did not fit the target shape.
/// `UninitializedEntity` is the one error the core itself raises: an
/// entity-scoped call was attempted on a resource with no bound
/// client.
#[derive(Debug, Clone, Copy, PartialEq, Eq, Structural)]
pub enum Error {
    MalformedUrl,
    TransportError,
    DecodeError,
    UninitializedEntity,
}

impl Error {
    /// A human-readable description of the error.
    pub fn message(&self) -> (r: &'static str)
        ensures
            r@ == self.spec_message(),
    {
        match self {
            Error::MalformedUrl => "the base URL or a joined path segment is not a valid URL",
            Error::TransportError => "the underlying HTTP call failed",
            Error::DecodeError => "the response body could not be decoded",
            Error::UninitializedEntity => {
                "a rest call has been attempted from an entity that was not initialized"
            },
        }
    }

    pub open spec fn spec_message(&self) -> Seq<char> {
        match self {
            Error::MalformedUrl => "the base URL or a joined path segment is not a valid URL"@,
            Error::TransportError => "the underlying HTTP call failed"@,
            Error::DecodeError => "the response body could not be decoded"@,
            Error::UninitializedEntity => {
                "a rest call has been attempted from an entity that was not initialized"@
            },
        }
    }
}

} // verus!
