//! Resolution of DIDs of the `did:cheqd` method.
//!
//! A DID or DID URL is taken apart by [`resolution::parser`]. From its parts
//! [`resolution::resolver`] says which network is to be asked for what, and
//! what the answer holds; for a resource that is looked up by name, type and
//! time, [`resolution::revisions`] says which revision that is.
//! [`resolution::session`] strings these together into the steps of one
//! resolution, and [`resolution::transformer`] renders what was resolved as
//! JSON.
//!
//! Nothing here touches the network. Connections are opened and queries are
//! sent by whoever drives the resolver.

use crate::text::{joined, split_once};
use vstd::prelude::*;

pub mod error;
pub mod proto;
pub mod resolution;
pub mod text;

verus! {

/// The name of the method, as it stands in a DID after `did:`.
pub const DID_METHOD_NAME: &'static str = "cheqd";

/// The `did:cheqd` method.
#[derive(Debug, Clone, Copy, PartialEq, Eq, Structural)]
pub struct DIDCheqd;

/// What a method-specific identifier asks for.
#[derive(Debug, Clone, Copy, PartialEq, Eq, Structural)]
pub enum Target {
    /// The DID document.
    Document,
    /// A resource of the DID.
    Resource,
}

impl DIDCheqd {
    pub fn new() -> (method: Self)
        ensures
            method == DIDCheqd,
    {
        DIDCheqd
    }

    /// What `method_specific_id` asks for: a resource where it holds a `/`
    /// or a `?`, else the DID document.
    pub fn target_of(method_specific_id: &str) -> (target: Target)
        ensures
            target == Target::Resource <==> method_specific_id@.contains('/')
                || method_specific_id@.contains('?'),
    {
        if split_once(method_specific_id, '/').is_some() || split_once(
            method_specific_id,
            '?',
        ).is_some() {
            Target::Resource
        } else {
            Target::Document
        }
    }

    /// The DID, or DID URL, of `method_specific_id`: the method before it.
    pub fn did_of(method_specific_id: &str) -> (did: String)
        ensures
            did@ == "did:cheqd:"@ + method_specific_id@,
    {
        joined("did:cheqd:", method_specific_id)
    }
}

impl Default for DIDCheqd {
    fn default() -> (method: Self)
        ensures
            method == DIDCheqd,
    {
        DIDCheqd::new()
    }
}

} // verus!
