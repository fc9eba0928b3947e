//! Block identifiers, and blocks as a chain reports them.

use vstd::prelude::*;
use crate::primitives::TxHash;
use crate::transaction::{RpcTransaction, TransactionData};

verus! {

/// A block, named by its number or by a tag that the chain resolves.
#[derive(Clone, Copy, Debug, PartialEq, Eq, Hash, Structural)]
pub enum BlockNumberOrTag {
    Latest,
    Finalized,
    Safe,
    Earliest,
    Pending,
    Number(u64),
}

/// A range of blocks from `start` to `end`, both included; without an end
/// the range is open.
#[derive(Clone, Copy, Debug, PartialEq, Eq, Hash, Structural)]
pub struct BlockRange {
    pub start: BlockNumberOrTag,
    pub end: Option<BlockNumberOrTag>,
}

impl BlockRange {
    /// The range from `start` to `end`.
    pub fn new(start: BlockNumberOrTag, end: Option<BlockNumberOrTag>) -> (range: BlockRange)
        ensures
            range.start == start,
            range.end == end,
    {
        BlockRange { start, end }
    }
}

/// What a block-based query names: one block, or a range of blocks.
#[derive(Clone, Copy, Debug, PartialEq, Eq, Hash, Structural)]
pub enum BlockId {
    Number(BlockNumberOrTag),
    Range(BlockRange),
}

/// The transactions of a block, in one of the forms a chain answers in.
#[derive(Clone, Debug, PartialEq, Eq)]
pub enum BlockTransactions {
    /// The transactions themselves.
    Full(Vec<RpcTransaction>),
    /// Only their hashes.
    Hashes(Vec<TxHash>),
    /// The answer for an uncle block, which lists none.
    Uncle,
}

/// A block as a chain hands it out.
#[derive(Clone, Debug, PartialEq, Eq)]
pub struct Block {
    pub transactions: BlockTransactions,
}

/// What each transaction of a list holds.
pub open spec fn transactions_view(transactions: Seq<RpcTransaction>) -> Seq<TransactionData> {
    transactions.map_values(|t: RpcTransaction| t@)
}

impl Block {
    /// Whether the block came with its transactions in full form.
    pub open spec fn spec_is_full(&self) -> bool {
        self.transactions is Full
    }

    /// Whether the block came with its transactions in full form.
    #[verifier::when_used_as_spec(spec_is_full)]
    pub fn is_full(&self) -> (full: bool)
        ensures
            full == self.spec_is_full(),
    {
        match &self.transactions {
            BlockTransactions::Full(_) => true,
            _ => false,
        }
    }

    /// The transactions of a block in full form; of a block in another form, none.
    pub open spec fn full_transactions(self) -> Seq<TransactionData> {
        match self.transactions {
            BlockTransactions::Full(transactions) => transactions_view(transactions@),
            _ => Seq::empty(),
        }
    }
}

} // verus!
