//! The errors of resolution.

use crate::text::joined;
use vstd::prelude::*;

verus! {

/// Why a resolution failed. Each variant carries the detail of its case as text.
#[derive(Debug, PartialEq, Eq)]
pub enum DidCheqdError {
    /// The input does not belong to the `did:cheqd` method.
    MethodMismatch(String),
    /// The path of the identifier is not of the form `/<kind>/<value>`.
    MalformedPath(String),
    /// The path of the identifier names something other than a resource or a version.
    UnsupportedPathSegment(String),
    /// The query selects no resource, selects one incompletely, or gives a time
    /// that cannot be read.
    InvalidDidUrl(String),
    /// No network is configured for the namespace.
    NetworkNotSupported(String),
    /// The configured endpoint of the network cannot be read as a URI.
    BadConfiguration(String),
    /// No connection to the network could be made.
    TransportError(String),
    /// The network answered the query with a failure.
    NonSuccessResponse(String),
    /// The network answered, and its answer lacks a part that it must have.
    InvalidResponse(String),
    /// No revision of the resource was created before the time asked for.
    ResourceNotFound(String),
    /// A resolved record cannot be rendered as a document.
    InvalidDidDocument(String),
    /// Anything else, in its own words.
    Other(String),
}

pub type DidCheqdResult<T> = Result<T, DidCheqdError>;

impl DidCheqdError {
    /// The text that the error carries.
    pub open spec fn detail(&self) -> Seq<char> {
        match self {
            DidCheqdError::MethodMismatch(d) => d@,
            DidCheqdError::MalformedPath(d) => d@,
            DidCheqdError::UnsupportedPathSegment(d) => d@,
            DidCheqdError::InvalidDidUrl(d) => d@,
            DidCheqdError::NetworkNotSupported(d) => d@,
            DidCheqdError::BadConfiguration(d) => d@,
            DidCheqdError::TransportError(d) => d@,
            DidCheqdError::NonSuccessResponse(d) => d@,
            DidCheqdError::InvalidResponse(d) => d@,
            DidCheqdError::ResourceNotFound(d) => d@,
            DidCheqdError::InvalidDidDocument(d) => d@,
            DidCheqdError::Other(d) => d@,
        }
    }

    /// The words that introduce the detail, one phrase for each kind of error.
    pub open spec fn heading(&self) -> Seq<char> {
        match self {
            DidCheqdError::MethodMismatch(_) => "DID method not supported: "@,
            DidCheqdError::MalformedPath(_) => "Invalid DID Url: "@,
            DidCheqdError::UnsupportedPathSegment(_) => "Invalid DID Url: "@,
            DidCheqdError::InvalidDidUrl(_) => "Invalid DID Url: "@,
            DidCheqdError::NetworkNotSupported(_) => "Cheqd network not supported: "@,
            DidCheqdError::BadConfiguration(_) => "Bad configuration: "@,
            DidCheqdError::TransportError(_) => "Transport error: "@,
            DidCheqdError::NonSuccessResponse(_) => "Non-success resolver response: "@,
            DidCheqdError::InvalidResponse(_) => "Response from resolver is invalid: "@,
            DidCheqdError::ResourceNotFound(_) => "Resource could not be found: "@,
            DidCheqdError::InvalidDidDocument(_) => "Invalid DID Document structure resolved: "@,
            DidCheqdError::Other(_) => ""@,
        }
    }

    /// The error as one line of text: its heading, then its detail.
    pub fn to_string(&self) -> (line: String)
        ensures
            line@ == self.heading() + self.detail(),
    {
        match self {
            DidCheqdError::MethodMismatch(d) => joined("DID method not supported: ", d.as_str()),
            DidCheqdError::MalformedPath(d) => joined("Invalid DID Url: ", d.as_str()),
            DidCheqdError::UnsupportedPathSegment(d) => joined("Invalid DID Url: ", d.as_str()),
            DidCheqdError::InvalidDidUrl(d) => joined("Invalid DID Url: ", d.as_str()),
            DidCheqdError::NetworkNotSupported(d) => joined(
                "Cheqd network not supported: ",
                d.as_str(),
            ),
            DidCheqdError::BadConfiguration(d) => joined("Bad configuration: ", d.as_str()),
            DidCheqdError::TransportError(d) => joined("Transport error: ", d.as_str()),
            DidCheqdError::NonSuccessResponse(d) => joined(
                "Non-success resolver response: ",
                d.as_str(),
            ),
            DidCheqdError::InvalidResponse(d) => joined(
                "Response from resolver is invalid: ",
                d.as_str(),
            ),
            DidCheqdError::ResourceNotFound(d) => joined(
                "Resource could not be found: ",
                d.as_str(),
            ),
            DidCheqdError::InvalidDidDocument(d) => joined(
                "Invalid DID Document structure resolved: ",
                d.as_str(),
            ),
            DidCheqdError::Other(d) => joined("", d.as_str()),
        }
    }
}

} // verus!
