//! Identifiers of the entities that a query names.

use vstd::prelude::*;
use crate::block::BlockId;
use crate::primitives::{Address, TxHash};

verus! {

/// An account, named by its address or by a registered name.
#[derive(Clone, Debug, PartialEq, Eq)]
pub enum NameOrAddress {
    Address(Address),
    Name(String),
}

/// What a query names: an account, a block or a transaction.
#[derive(Clone, Debug, PartialEq, Eq)]
pub enum EntityId {
    Account(NameOrAddress),
    Block(BlockId),
    Transaction(TxHash),
}

impl EntityId {
    /// Whether the identifier names an account.
    pub open spec fn spec_is_account(&self) -> bool {
        self is Account
    }

    /// Whether the identifier names an account.
    #[verifier::when_used_as_spec(spec_is_account)]
    pub fn is_account(&self) -> (account: bool)
        ensures
            account == self.spec_is_account(),
    {
        match self {
            EntityId::Account(_) => true,
            _ => false,
        }
    }
}

} // verus!
