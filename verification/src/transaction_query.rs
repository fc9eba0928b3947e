//! Transaction queries: the requested columns, the explicit ids and the
//! predicates that rows must pass.

use vstd::prelude::*;
use crate::block::BlockId;
use crate::filters::{EqualityFilter, FilterType};
use crate::primitives::{Address, TxHash, U256};
use crate::transaction::{TransactionField, TransactionQueryRes, TransactionRow};

verus! {

/// A predicate of a transaction query.
#[derive(Clone, Copy, Debug, PartialEq, Eq)]
pub enum TransactionFilter {
    From(EqualityFilter<Address>),
    To(EqualityFilter<Address>),
    Value(FilterType<U256>),
    GasPrice(FilterType<u128>),
    Gas(FilterType<u128>),
    Status(EqualityFilter<bool>),
    /// Names the blocks whose transactions the query ranges over. It selects
    /// the source of a query and rejects no row.
    BlockId(BlockId),
}

impl TransactionFilter {
    /// Whether a row passes the predicate.
    ///
    /// A predicate on a column speaks of the value in that column's slot: a
    /// row whose slot is unset has no such value and does not pass, whatever
    /// the test is.
    pub open spec fn holds(self, row: TransactionRow) -> bool {
        match self {
            TransactionFilter::From(test) => row.from matches Some(from) && test.holds(from),
            TransactionFilter::To(test) => row.to matches Some(to) && test.holds(to),
            TransactionFilter::Value(test) => row.value matches Some(value) && test.holds(value),
            TransactionFilter::GasPrice(test) => row.gas_price matches Some(price) && test.holds(
                price,
            ),
            TransactionFilter::Gas(test) => row.gas matches Some(gas) && test.holds(gas),
            TransactionFilter::Status(test) => row.status matches Some(status) && test.holds(
                status,
            ),
            TransactionFilter::BlockId(_) => true,
        }
    }

    /// Whether a row passes the predicate.
    pub fn accepts(&self, row: &TransactionQueryRes) -> (passed: bool)
        ensures
            passed == self.holds(row@),
    {
        match self {
            TransactionFilter::From(test) => match &row.from {
                Some(from) => test.accepts(from),
                None => false,
            },
            TransactionFilter::To(test) => match &row.to {
                Some(to) => test.accepts(to),
                None => false,
            },
            TransactionFilter::Value(test) => match &row.value {
                Some(value) => test.accepts(value),
                None => false,
            },
            TransactionFilter::GasPrice(test) => match row.gas_price {
                Some(price) => test.accepts(price),
                None => false,
            },
            TransactionFilter::Gas(test) => match row.gas {
                Some(gas) => test.accepts(gas),
                None => false,
            },
            TransactionFilter::Status(test) => match row.status {
                Some(status) => test.accepts(status),
                None => false,
            },
            TransactionFilter::BlockId(_) => true,
        }
    }
}

/// The first block filter among a list of predicates, if there is one.
pub open spec fn first_block_id(predicates: Seq<TransactionFilter>) -> Option<BlockId>
    decreases predicates.len(),
{
    if predicates.len() == 0 {
        None
    } else {
        match predicates.first() {
            TransactionFilter::BlockId(block_id) => Some(block_id),
            _ => first_block_id(predicates.drop_first()),
        }
    }
}

/// Whether a row passes every predicate of a list.
pub open spec fn passes_all(predicates: Seq<TransactionFilter>, row: TransactionRow) -> bool {
    forall|i: int| 0 <= i < predicates.len() ==> (#[trigger] predicates[i]).holds(row)
}

/// A transaction query.
#[derive(Clone, Debug, PartialEq, Eq)]
pub struct Transaction {
    /// The transactions asked for by hash, where the query has an id list.
    pub ids: Option<Vec<TxHash>>,
    /// The predicates that a row must pass, where the query has any.
    pub filters: Option<Vec<TransactionFilter>>,
    /// The columns asked for.
    pub fields: Vec<TransactionField>,
}

impl Transaction {
    /// The query with the given ids, predicates and columns.
    pub fn new(
        ids: Option<Vec<TxHash>>,
        filters: Option<Vec<TransactionFilter>>,
        fields: Vec<TransactionField>,
    ) -> (query: Transaction)
        ensures
            query.ids == ids,
            query.filters == filters,
            query.fields == fields,
    {
        Transaction { ids, filters, fields }
    }

    /// The predicates of the query, in order; none where it has no filter list.
    pub open spec fn predicates(&self) -> Seq<TransactionFilter> {
        match self.filters {
            Some(filters) => filters@,
            None => Seq::empty(),
        }
    }

    /// The block filter that the query's source is taken from: the first one.
    pub open spec fn block_filter(&self) -> Option<BlockId> {
        first_block_id(self.predicates())
    }

    /// Whether a row passes every predicate of the query.
    pub open spec fn keeps(&self, row: TransactionRow) -> bool {
        passes_all(self.predicates(), row)
    }

    /// Whether the query names transactions by hash: it has an id list, and
    /// the list is not empty.
    pub open spec fn names_ids(&self) -> bool {
        self.ids matches Some(ids) && ids@.len() > 0
    }

    /// Whether the query has something to enumerate: transactions named by
    /// hash, or a block filter.
    pub open spec fn spec_has_source(&self) -> bool {
        self.names_ids() || self.block_filter() is Some
    }

    /// The transactions asked for by hash, where the query has an id list.
    pub fn ids(&self) -> (ids: Option<&Vec<TxHash>>)
        ensures
            ids == match self.ids {
                Some(ids) => Some(&ids),
                None => None,
            },
    {
        self.ids.as_ref()
    }

    /// The columns asked for.
    pub fn fields(&self) -> (fields: &Vec<TransactionField>)
        ensures
            *fields == self.fields,
    {
        &self.fields
    }

    /// The block filter that the query's source is taken from, if it has one.
    pub fn get_block_id_filter(&self) -> (block_id: Option<BlockId>)
        ensures
            block_id == self.block_filter(),
    {
        match &self.filters {
            None => None,
            Some(filters) => {
                let mut i: usize = 0;
                assert(filters@.skip(0) =~= filters@);
                while i < filters.len()
                    invariant
                        i <= filters.len(),
                        self.predicates() == filters@,
                        first_block_id(filters@) == first_block_id(filters@.skip(i as int)),
                    decreases filters.len() - i,
                {
                    assert(filters@.skip(i as int).first() == filters@[i as int]);
                    assert(filters@.skip(i as int).drop_first() =~= filters@.skip(i as int + 1));
                    match filters[i] {
                        TransactionFilter::BlockId(block_id) => {
                            return Some(block_id);
                        },
                        _ => {},
                    }
                    i = i + 1;
                }
                None
            },
        }
    }

    /// Whether the query has a block filter.
    pub fn has_block_filter(&self) -> (present: bool)
        ensures
            present == (self.block_filter() is Some),
    {
        self.get_block_id_filter().is_some()
    }

    /// Whether the query has something to enumerate: transactions named by
    /// hash, or a block filter. An id list that is empty names none.
    #[verifier::when_used_as_spec(spec_has_source)]
    pub fn has_source(&self) -> (present: bool)
        ensures
            present == self.spec_has_source(),
    {
        let named = match &self.ids {
            Some(ids) => ids.len() > 0,
            None => false,
        };
        named || self.has_block_filter()
    }

    /// Whether a row passes every predicate of the query.
    pub fn filter(&self, row: &TransactionQueryRes) -> (kept: bool)
        ensures
            kept == self.keeps(row@),
    {
        match &self.filters {
            None => true,
            Some(filters) => {
                let mut i: usize = 0;
                while i < filters.len()
                    invariant
                        i <= filters.len(),
                        self.predicates() == filters@,
                        forall|j: int| 0 <= j < i ==> (#[trigger] filters@[j]).holds(row@),
                    decreases filters.len() - i,
                {
                    if !filters[i].accepts(row) {
                        assert(!self.predicates()[i as int].holds(row@));
                        return false;
                    }
                    i = i + 1;
                }
                true
            },
        }
    }
}

} // verus!
