//! Chain descriptors.

use vstd::prelude::*;

verus! {

/// The chain id of the canonical chain, on which names are registered.
pub const CANONICAL_CHAIN_ID: u64 = 1;

/// A chain, known by its numeric chain id. Rows can be stamped with it.
#[derive(Clone, Copy, Debug, PartialEq, Eq, Hash, Structural)]
pub struct Chain {
    /// The chain id that the network reports.
    pub id: u64,
}

impl Chain {
    /// The chain with the given id.
    pub fn new(id: u64) -> (chain: Chain)
        ensures
            chain.id == id,
    {
        Chain { id }
    }

    /// The canonical chain: the one fixed network that resolves names,
    /// whichever chains a query is aimed at.
    pub open spec fn spec_canonical() -> Chain {
        Chain { id: CANONICAL_CHAIN_ID }
    }

    /// The canonical chain.
    #[verifier::when_used_as_spec(spec_canonical)]
    pub fn canonical() -> (chain: Chain)
        ensures
            chain == Chain::spec_canonical(),
    {
        Chain { id: CANONICAL_CHAIN_ID }
    }
}

} // verus!
