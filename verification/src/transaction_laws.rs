//! What holds of every transaction query: narrowing by predicates, the fate
//! of ids that a chain does not know, and what a row reads of its sources.

use vstd::prelude::*;
use crate::chain::Chain;
use crate::filters::{EqualityFilter, FilterType};
use crate::primitives::{Address, U256};
use crate::resolve_transaction::{
    all_candidates, block_transactions, candidates_of, found_transactions, kept_by, projected,
    query_rows, transaction_row, ChainFetch,
};
use crate::transaction::{RpcTransaction, TransactionData, TransactionField, TransactionRow};
use crate::transaction_query::{passes_all, TransactionFilter};

verus! {

/// Passing one predicate, as a test on rows.
pub open spec fn passing(predicate: TransactionFilter) -> spec_fn(TransactionRow) -> bool {
    |row: TransactionRow| predicate.holds(row)
}

/// Keeping what passes two tests at once is keeping what passes the first
/// and, of that, what passes the second.
pub proof fn lemma_filter_twice<T>(
    s: Seq<T>,
    first: spec_fn(T) -> bool,
    second: spec_fn(T) -> bool,
    both: spec_fn(T) -> bool,
)
    requires
        forall|x: T| #[trigger] both(x) == (first(x) && second(x)),
    ensures
        s.filter(both) == s.filter(first).filter(second),
    decreases s.len(),
{
    reveal(Seq::filter);
    if s.len() > 0 {
        let rest = s.drop_last();
        let last = s.last();
        lemma_filter_twice(rest, first, second, both);
        assert(s =~= rest.push(last));
        rest.lemma_filter_push(last, both);
        rest.lemma_filter_push(last, first);
        rest.filter(first).lemma_filter_push(last, second);
    }
}

/// A row passes a list of predicates with one more at its end exactly when it
/// passes the list and the one more.
pub proof fn lemma_passes_all_push(
    predicates: Seq<TransactionFilter>,
    added: TransactionFilter,
    row: TransactionRow,
)
    ensures
        passes_all(predicates.push(added), row) == (passes_all(predicates, row) && added.holds(
            row,
        )),
{
    let longer = predicates.push(added);
    if passes_all(longer, row) {
        assert(longer[predicates.len() as int].holds(row));
        assert forall|i: int| 0 <= i < predicates.len() implies (#[trigger] predicates[i]).holds(
            row,
        ) by {
            assert(longer[i].holds(row));
        }
    }
    if passes_all(predicates, row) && added.holds(row) {
        assert forall|i: int| 0 <= i < longer.len() implies (#[trigger] longer[i]).holds(row) by {
            if i < predicates.len() {
                assert(predicates[i].holds(row));
            }
        }
    }
}

/// Narrowing: a query with one more predicate returns, of the rows that it
/// returned without it, exactly those that pass the new predicate, in the
/// same order. So a predicate more never adds a row.
pub proof fn lemma_added_predicate_narrows(
    fields: Seq<TransactionField>,
    predicates: Seq<TransactionFilter>,
    added: TransactionFilter,
    chains: Seq<ChainFetch>,
)
    ensures
        query_rows(fields, predicates.push(added), chains) == query_rows(
            fields,
            predicates,
            chains,
        ).filter(passing(added)),
        query_rows(fields, predicates.push(added), chains).len() <= query_rows(
            fields,
            predicates,
            chains,
        ).len(),
{
    let candidates = all_candidates(chains, fields);
    assert forall|row: TransactionRow| #[trigger]
        kept_by(predicates.push(added))(row) == (kept_by(predicates)(row) && passing(added)(
            row,
        )) by {
        lemma_passes_all_push(predicates, added, row);
    }
    lemma_filter_twice(
        candidates,
        kept_by(predicates),
        passing(added),
        kept_by(predicates.push(added)),
    );
    candidates.filter(kept_by(predicates)).lemma_filter_len(passing(added));
}

/// Narrowing is idempotent: a predicate that the query already has, added
/// once more, changes nothing in what the query returns.
pub proof fn lemma_repeated_predicate_changes_nothing(
    fields: Seq<TransactionField>,
    predicates: Seq<TransactionFilter>,
    repeated: TransactionFilter,
    chains: Seq<ChainFetch>,
)
    requires
        predicates.contains(repeated),
    ensures
        query_rows(fields, predicates.push(repeated), chains) == query_rows(
            fields,
            predicates,
            chains,
        ),
{
    let position = choose|i: int| 0 <= i < predicates.len() && predicates[i] == repeated;
    assert forall|row: TransactionRow| #[trigger]
        kept_by(predicates.push(repeated))(row) == kept_by(predicates)(row) by {
        lemma_passes_all_push(predicates, repeated, row);
        if passes_all(predicates, row) {
            assert(predicates[position].holds(row));
        }
    }
    assert(kept_by(predicates.push(repeated)) =~= kept_by(predicates));
}

/// Every row that a query returns passes every predicate of the query.
pub proof fn lemma_rows_pass_every_predicate(
    fields: Seq<TransactionField>,
    predicates: Seq<TransactionFilter>,
    chains: Seq<ChainFetch>,
    i: int,
)
    requires
        0 <= i < query_rows(fields, predicates, chains).len(),
    ensures
        passes_all(predicates, query_rows(fields, predicates, chains)[i]),
{
    all_candidates(chains, fields).lemma_filter_pred(kept_by(predicates), i);
}

/// Filtering for equality fixes the column: where a query asks that a column
/// equal a given value, every row that it returns holds that value in the
/// column's slot.
pub proof fn lemma_equality_filter_fixes_column(
    fields: Seq<TransactionField>,
    predicates: Seq<TransactionFilter>,
    chains: Seq<ChainFetch>,
    i: int,
)
    requires
        0 <= i < query_rows(fields, predicates, chains).len(),
    ensures
        forall|wanted: Address| #[trigger]
            predicates.contains(TransactionFilter::From(EqualityFilter::Eq(wanted)))
                ==> query_rows(fields, predicates, chains)[i].from == Some(wanted),
        forall|wanted: Address| #[trigger]
            predicates.contains(TransactionFilter::To(EqualityFilter::Eq(wanted)))
                ==> query_rows(fields, predicates, chains)[i].to == Some(wanted),
        forall|wanted: U256| #[trigger]
            predicates.contains(
                TransactionFilter::Value(FilterType::Equality(EqualityFilter::Eq(wanted))),
            ) ==> query_rows(fields, predicates, chains)[i].value == Some(wanted),
        forall|wanted: u128| #[trigger]
            predicates.contains(
                TransactionFilter::GasPrice(FilterType::Equality(EqualityFilter::Eq(wanted))),
            ) ==> query_rows(fields, predicates, chains)[i].gas_price == Some(wanted),
        forall|wanted: u128| #[trigger]
            predicates.contains(
                TransactionFilter::Gas(FilterType::Equality(EqualityFilter::Eq(wanted))),
            ) ==> query_rows(fields, predicates, chains)[i].gas == Some(wanted),
        forall|wanted: bool| #[trigger]
            predicates.contains(TransactionFilter::Status(EqualityFilter::Eq(wanted)))
                ==> query_rows(fields, predicates, chains)[i].status == Some(wanted),
{
    lemma_rows_pass_every_predicate(fields, predicates, chains, i);
    let row = query_rows(fields, predicates, chains)[i];
    assert forall|predicate: TransactionFilter| #[trigger]
        predicates.contains(predicate) implies predicate.holds(row) by {
        let position = choose|j: int| 0 <= j < predicates.len() && predicates[j] == predicate;
        assert(predicates[position].holds(row));
    }
}

/// An id that the chain does not know leaves no trace: the transactions that
/// a list of lookups found are those that the list without that lookup found.
pub proof fn lemma_unknown_id_leaves_no_trace(lookups: Seq<Option<RpcTransaction>>, position: int)
    requires
        0 <= position < lookups.len(),
        lookups[position] is None,
    ensures
        found_transactions(lookups) == found_transactions(lookups.remove(position)),
    decreases lookups.len(),
{
    if position == lookups.len() - 1 {
        assert(lookups.remove(position) =~= lookups.drop_last());
    } else {
        let rest = lookups.drop_last();
        lemma_unknown_id_leaves_no_trace(rest, position);
        assert(lookups.remove(position).drop_last() =~= rest.remove(position));
        assert(lookups.remove(position).last() == lookups.last());
    }
}

/// An id that the chain knows resolves, whatever became of the other ids of
/// the list: its transaction is among those found.
pub proof fn lemma_known_id_resolves(lookups: Seq<Option<RpcTransaction>>, position: int)
    requires
        0 <= position < lookups.len(),
        lookups[position] is Some,
    ensures
        found_transactions(lookups).contains(lookups[position]->Some_0@),
    decreases lookups.len(),
{
    let rest = lookups.drop_last();
    let found = found_transactions(lookups);
    if position == lookups.len() - 1 {
        assert(found[found.len() - 1] == lookups[position]->Some_0@);
    } else {
        lemma_found_extends(lookups);
        lemma_known_id_resolves(rest, position);
        let earlier = found_transactions(rest);
        let at = choose|j: int| 0 <= j < earlier.len() && earlier[j] == lookups[position]->Some_0@;
        assert(found[at] == earlier[at]);
    }
}

/// What a list of lookups found begins with what the list without its last
/// lookup found.
pub proof fn lemma_found_extends(lookups: Seq<Option<RpcTransaction>>)
    requires
        lookups.len() > 0,
    ensures
        found_transactions(lookups.drop_last()).is_prefix_of(found_transactions(lookups)),
{
}

/// Whether the slot of a column is set in a row.
pub open spec fn is_set(row: TransactionRow, field: TransactionField) -> bool {
    match field {
        TransactionField::TransactionType => row.transaction_type is Some,
        TransactionField::Hash => row.hash is Some,
        TransactionField::From => row.from is Some,
        TransactionField::To => row.to is Some,
        TransactionField::Data => row.data is Some,
        TransactionField::Value => row.value is Some,
        TransactionField::GasPrice => row.gas_price is Some,
        TransactionField::Gas => row.gas is Some,
        TransactionField::Status => row.status is Some,
        TransactionField::ChainId => row.chain_id is Some,
        TransactionField::V => row.v is Some,
        TransactionField::R => row.r is Some,
        TransactionField::S => row.s is Some,
        TransactionField::MaxFeePerBlobGas => row.max_fee_per_blob_gas is Some,
        TransactionField::MaxFeePerGas => row.max_fee_per_gas is Some,
        TransactionField::MaxPriorityFeePerGas => row.max_priority_fee_per_gas is Some,
        TransactionField::YParity => row.y_parity is Some,
        TransactionField::Chain => row.chain is Some,
    }
}

/// Whether every transaction has a value for a column, a receipt or none.
pub open spec fn always_valued(field: TransactionField) -> bool {
    match field {
        TransactionField::Hash
        | TransactionField::From
        | TransactionField::Data
        | TransactionField::Value
        | TransactionField::Gas
        | TransactionField::Chain => true,
        _ => false,
    }
}

/// A slot is set only where its column was asked for: an unset slot is how a
/// row tells a column that was not asked for from one that holds a zero.
pub proof fn lemma_only_requested_columns_are_set(
    tx: TransactionData,
    fields: Seq<TransactionField>,
    receipt: Option<bool>,
    chain: Chain,
    field: TransactionField,
)
    requires
        is_set(transaction_row(tx, fields, receipt, chain), field),
    ensures
        fields.contains(field),
{
}

/// A column that every transaction has a value for is set in a row exactly
/// when it was asked for.
pub proof fn lemma_valued_columns_are_set_as_requested(
    tx: TransactionData,
    fields: Seq<TransactionField>,
    receipt: Option<bool>,
    chain: Chain,
    field: TransactionField,
)
    requires
        always_valued(field),
    ensures
        is_set(transaction_row(tx, fields, receipt, chain), field) <==> fields.contains(field),
{
}

/// The receipt of a transaction is read for the status column alone: a query
/// that does not ask for the status gives the same row whatever the receipt
/// says, so none needs to be fetched for it.
pub proof fn lemma_receipt_read_for_status_only(
    tx: TransactionData,
    fields: Seq<TransactionField>,
    receipt: Option<bool>,
    other: Option<bool>,
    chain: Chain,
)
    requires
        !fields.contains(TransactionField::Status),
    ensures
        transaction_row(tx, fields, receipt, chain) == transaction_row(tx, fields, other, chain),
{
}

/// The chain of a transaction is read for the chain column alone: a query
/// that does not ask for the chain gives the same row whichever chain is
/// named, so none needs to be made out for it.
pub proof fn lemma_chain_read_for_chain_only(
    tx: TransactionData,
    fields: Seq<TransactionField>,
    receipt: Option<bool>,
    chain: Chain,
    other: Chain,
)
    requires
        !fields.contains(TransactionField::Chain),
    ensures
        transaction_row(tx, fields, receipt, chain) == transaction_row(tx, fields, receipt, other),
{
}

/// A query over blocks returns the rows of the transactions of every block
/// that was fetched, block after block, less those that fail a predicate.
pub proof fn lemma_rows_of_blocks(
    fields: Seq<TransactionField>,
    predicates: Seq<TransactionFilter>,
    fetch: ChainFetch,
)
    requires
        fetch.source is Blocks,
    ensures
        query_rows(fields, predicates, seq![fetch]) == projected(
            block_transactions(fetch.source->Blocks_0@),
            fields,
            fetch.receipts@,
            fetch.chain,
        ).filter(kept_by(predicates)),
{
    seq![fetch].lemma_flat_map_singleton(candidates_of(fields));
}

/// A query over blocks with no predicate but block filters returns as many
/// rows as the blocks that were fetched hold transactions.
pub proof fn lemma_block_query_counts_transactions(
    fields: Seq<TransactionField>,
    predicates: Seq<TransactionFilter>,
    fetch: ChainFetch,
)
    requires
        fetch.source is Blocks,
        only_block_filters(predicates),
    ensures
        query_rows(fields, predicates, seq![fetch]).len() == block_transactions(
            fetch.source->Blocks_0@,
        ).len(),
{
    lemma_block_filters_keep_every_row(fields, predicates, seq![fetch]);
    seq![fetch].lemma_flat_map_singleton(candidates_of(fields));
}

/// Whether every predicate of a list is a block filter.
pub open spec fn only_block_filters(predicates: Seq<TransactionFilter>) -> bool {
    forall|i: int| 0 <= i < predicates.len() ==> (#[trigger] predicates[i]) is BlockId
}

/// Keeping what passes a test that everything passes keeps everything.
pub proof fn lemma_filter_keeps_all<T>(s: Seq<T>, test: spec_fn(T) -> bool)
    requires
        forall|x: T| #[trigger] test(x),
    ensures
        s.filter(test) == s,
    decreases s.len(),
{
    reveal(Seq::filter);
    if s.len() > 0 {
        lemma_filter_keeps_all(s.drop_last(), test);
        assert(s.drop_last().push(s.last()) =~= s);
    }
}

/// A block filter selects the source and rejects no row: a query whose only
/// predicates are block filters returns one row for every transaction that
/// was enumerated, so as many rows as the blocks hold transactions.
pub proof fn lemma_block_filters_keep_every_row(
    fields: Seq<TransactionField>,
    predicates: Seq<TransactionFilter>,
    chains: Seq<ChainFetch>,
)
    requires
        only_block_filters(predicates),
    ensures
        query_rows(fields, predicates, chains) == all_candidates(chains, fields),
{
    assert forall|row: TransactionRow| #[trigger] kept_by(predicates)(row) by {
        assert forall|i: int| 0 <= i < predicates.len() implies (#[trigger] predicates[i]).holds(
            row,
        ) by {
            assert(predicates[i] is BlockId);
        }
    }
    lemma_filter_keeps_all(all_candidates(chains, fields), kept_by(predicates));
}

} // verus!
