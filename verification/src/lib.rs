//! A typed client core for a trading-card-game catalog web API.
//!
//! The library holds the verified query engine: resource routing, URL and
//! query-string construction, the per-call filter-argument state, and the
//! extraction of payloads from the two wire envelopes the API uses. Network
//! transport is left to the caller: each operation hands out the request to
//! issue and takes the response body back as a plain value.

pub mod client;
pub mod envelope;
pub mod errors;
pub mod kv;
pub mod record;
pub mod text;

use vstd::prelude::*;

verus! {

/// One of the six catalog entity categories served by the API.
#[derive(Clone, Copy, PartialEq, Eq, Structural, Debug)]
pub enum ResourceKind {
    Cards,
    Sets,
    Types,
    Supertypes,
    Subtypes,
    Rarities,
}

/// The URL path segment that routes requests for a resource kind.
pub open spec fn segment_spec(k: ResourceKind) -> Seq<char> {
    match k {
        ResourceKind::Cards => "cards"@,
        ResourceKind::Sets => "sets"@,
        ResourceKind::Types => "types"@,
        ResourceKind::Supertypes => "supertypes"@,
        ResourceKind::Subtypes => "subtypes"@,
        ResourceKind::Rarities => "rarities"@,
    }
}

impl ResourceKind {
    /// The path segment under the API base URL that serves this kind.
    pub fn path(&self) -> (r: &'static str)
        ensures
            r@ == segment_spec(*self),
    {
        match self {
            ResourceKind::Cards => "cards",
            ResourceKind::Sets => "sets",
            ResourceKind::Types => "types",
            ResourceKind::Supertypes => "supertypes",
            ResourceKind::Subtypes => "subtypes",
            ResourceKind::Rarities => "rarities",
        }
    }

    /// Whether this kind has a lookup-by-id endpoint upstream: only cards
    /// and sets do.
    pub fn supports_find(&self) -> (r: bool)
        ensures
            r == crate::client::has_id_endpoint(*self),
    {
        match self {
            ResourceKind::Cards => true,
            ResourceKind::Sets => true,
            ResourceKind::Types => false,
            ResourceKind::Supertypes => false,
            ResourceKind::Subtypes => false,
            ResourceKind::Rarities => false,
        }
    }
}

} // verus!
