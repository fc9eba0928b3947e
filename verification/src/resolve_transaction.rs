//! Resolution of transaction queries: source enumeration, field projection
//! and predicate filtering.

use vstd::prelude::*;
use crate::block::{transactions_view, Block, BlockId, BlockTransactions};
use crate::chain::Chain;
use crate::primitives::TxHash;
use crate::sequences::lemma_prefix_contains;
use crate::transaction::{
    RpcTransaction, TransactionData, TransactionField, TransactionQueryRes, TransactionRow,
};
use crate::transaction_query::{passes_all, Transaction, TransactionFilter};

verus! {

/// Why a transaction query could not be resolved.
#[derive(Clone, Debug, PartialEq, Eq)]
pub enum TransactionResolverErrors {
    /// An identifier of another kind of entity was handed in as a
    /// transaction id; the text is that identifier.
    MismatchEntityAndEntityId(String),
    /// The query names neither transaction hashes nor a block filter, so
    /// there is nothing to enumerate.
    MissingTransactionHashOrFilter,
}

impl TransactionResolverErrors {
    /// The text of the message for an error.
    pub open spec fn spec_message(self) -> Seq<char> {
        match self {
            TransactionResolverErrors::MismatchEntityAndEntityId(id) => {
                "Mismatch between Entity and EntityId, "@ + id@
                    + " can't be resolved as a transaction id"@
            },
            TransactionResolverErrors::MissingTransactionHashOrFilter => {
                "Query should either provide tx hash or block number/range filter"@
            },
        }
    }

    /// The message for an error, for a reader.
    pub fn message(&self) -> (text: String)
        ensures
            text@ == self.spec_message(),
    {
        match self {
            TransactionResolverErrors::MismatchEntityAndEntityId(id) => {
                let mut text = String::from_str("Mismatch between Entity and EntityId, ");
                text.append(id.as_str());
                text.append(" can't be resolved as a transaction id");
                text
            },
            TransactionResolverErrors::MissingTransactionHashOrFilter => {
                String::from_str("Query should either provide tx hash or block number/range filter")
            },
        }
    }
}

/// Where the transactions of a query are to be enumerated from.
#[derive(Clone, Copy, Debug, PartialEq, Eq)]
pub enum TransactionSource<'a> {
    /// Each of these hashes is looked up by itself. The list is empty only
    /// for a query that has an empty id list beside a block filter.
    Ids(&'a Vec<TxHash>),
    /// The blocks that this names are fetched with their transactions in
    /// full form.
    Block(BlockId),
}

/// What enumerating the source of a query on one chain brought back.
#[derive(Clone, Debug, PartialEq, Eq)]
pub enum Fetched {
    /// The answers to the lookups by hash, one for each id and in their
    /// order: the transaction, or `None` where the chain knows none.
    Lookups(Vec<Option<RpcTransaction>>),
    /// The blocks that the block filter resolved to, in order.
    Blocks(Vec<Block>),
}

/// What was fetched from one chain for a query.
#[derive(Clone, Debug, PartialEq, Eq)]
pub struct ChainFetch {
    /// The chain that was asked.
    pub chain: Chain,
    /// What enumerating the source brought back.
    pub source: Fetched,
    /// The receipt status of each enumerated transaction, in their order:
    /// `None` where the chain has no receipt. Transactions past the end of
    /// the list count as having none.
    pub receipts: Vec<Option<bool>>,
}

/// The value of a slot: the offered value where the column is wanted, unset
/// where it is not.
pub open spec fn slot<T>(wanted: bool, value: Option<T>) -> Option<T> {
    if wanted {
        value
    } else {
        None
    }
}

/// The row that a transaction gives for a set of requested columns.
///
/// A column that was not asked for stays unset. A column that was asked for
/// holds what the chain reported, which for some columns may be nothing.
/// `receipt` is the status of the transaction's receipt, `None` where the
/// chain has no receipt for it; `chain` is the chain the transaction came from.
pub open spec fn transaction_row(
    tx: TransactionData,
    fields: Seq<TransactionField>,
    receipt: Option<bool>,
    chain: Chain,
) -> TransactionRow {
    TransactionRow {
        transaction_type: slot(
            fields.contains(TransactionField::TransactionType),
            tx.transaction_type,
        ),
        hash: slot(fields.contains(TransactionField::Hash), Some(tx.hash)),
        from: slot(fields.contains(TransactionField::From), Some(tx.from)),
        to: slot(fields.contains(TransactionField::To), tx.to),
        data: slot(fields.contains(TransactionField::Data), Some(tx.input)),
        value: slot(fields.contains(TransactionField::Value), Some(tx.value)),
        gas_price: slot(fields.contains(TransactionField::GasPrice), tx.gas_price),
        gas: slot(fields.contains(TransactionField::Gas), Some(tx.gas)),
        status: slot(fields.contains(TransactionField::Status), receipt),
        chain_id: slot(fields.contains(TransactionField::ChainId), tx.chain_id),
        v: slot(
            fields.contains(TransactionField::V),
            match tx.signature {
                Some(signature) => Some(signature.v),
                None => None,
            },
        ),
        r: slot(
            fields.contains(TransactionField::R),
            match tx.signature {
                Some(signature) => Some(signature.r),
                None => None,
            },
        ),
        s: slot(
            fields.contains(TransactionField::S),
            match tx.signature {
                Some(signature) => Some(signature.s),
                None => None,
            },
        ),
        max_fee_per_blob_gas: slot(
            fields.contains(TransactionField::MaxFeePerBlobGas),
            tx.max_fee_per_blob_gas,
        ),
        max_fee_per_gas: slot(
            fields.contains(TransactionField::MaxFeePerGas),
            tx.max_fee_per_gas,
        ),
        max_priority_fee_per_gas: slot(
            fields.contains(TransactionField::MaxPriorityFeePerGas),
            tx.max_priority_fee_per_gas,
        ),
        y_parity: slot(
            fields.contains(TransactionField::YParity),
            match tx.signature {
                Some(signature) => signature.y_parity,
                None => None,
            },
        ),
        chain: slot(fields.contains(TransactionField::Chain), Some(chain)),
    }
}

/// Whether a column is among those asked for.
fn asks_for(fields: &Vec<TransactionField>, column: TransactionField) -> (asked: bool)
    ensures
        asked == fields@.contains(column),
{
    let mut i: usize = 0;
    while i < fields.len()
        invariant
            i <= fields.len(),
            !fields@.take(i as int).contains(column),
        decreases fields.len() - i,
    {
        proof {
            lemma_prefix_contains(fields@, i as int);
        }
        if fields[i] == column {
            assert(fields@.take(fields.len() as int) == fields@);
            assert(fields@[i as int] == column);
            return true;
        }
        i = i + 1;
    }
    assert(fields@.take(fields.len() as int) == fields@);
    false
}

/// Whether the columns asked for include the receipt status, the one column
/// that costs a further lookup for each transaction.
pub fn needs_receipt(fields: &Vec<TransactionField>) -> (needed: bool)
    ensures
        needed == fields@.contains(TransactionField::Status),
{
    asks_for(fields, TransactionField::Status)
}

/// Whether the columns asked for include the chain, the one column for which
/// the chain behind an endpoint has to be made out.
pub fn needs_chain(fields: &Vec<TransactionField>) -> (needed: bool)
    ensures
        needed == fields@.contains(TransactionField::Chain),
{
    asks_for(fields, TransactionField::Chain)
}

/// Projects one transaction onto the requested columns.
///
/// `receipt` is the status that the transaction's receipt reports, or `None`
/// where the chain has no receipt for it; it is read only where the status
/// column is asked for. `chain` is the chain the transaction was fetched
/// from; it is read only where the chain column is asked for.
pub fn pick_transaction_fields(
    tx: &RpcTransaction,
    fields: &Vec<TransactionField>,
    receipt: Option<bool>,
    chain: &Chain,
) -> (result: TransactionQueryRes)
    ensures
        result@ == transaction_row(tx@, fields@, receipt, *chain),
{
    let mut result = TransactionQueryRes::default();
    let mut i: usize = 0;
    assert(fields@.take(0) =~= Seq::<TransactionField>::empty());
    while i < fields.len()
        invariant
            i <= fields.len(),
            result@ == transaction_row(tx@, fields@.take(i as int), receipt, *chain),
        decreases fields.len() - i,
    {
        proof {
            lemma_prefix_contains(fields@, i as int);
        }
        match fields[i] {
            TransactionField::TransactionType => {
                result.transaction_type = tx.transaction_type;
            },
            TransactionField::Hash => {
                result.hash = Some(tx.hash);
            },
            TransactionField::From => {
                result.from = Some(tx.from);
            },
            TransactionField::To => {
                result.to = tx.to;
            },
            TransactionField::Data => {
                result.data = Some(tx.input.clone());
            },
            TransactionField::Value => {
                result.value = Some(tx.value);
            },
            TransactionField::GasPrice => {
                result.gas_price = tx.gas_price;
            },
            TransactionField::Gas => {
                result.gas = Some(tx.gas);
            },
            TransactionField::Status => {
                result.status = receipt;
            },
            TransactionField::ChainId => {
                result.chain_id = tx.chain_id;
            },
            TransactionField::V => {
                result.v = match tx.signature {
                    Some(signature) => Some(signature.v),
                    None => None,
                };
            },
            TransactionField::R => {
                result.r = match tx.signature {
                    Some(signature) => Some(signature.r),
                    None => None,
                };
            },
            TransactionField::S => {
                result.s = match tx.signature {
                    Some(signature) => Some(signature.s),
                    None => None,
                };
            },
            TransactionField::MaxFeePerBlobGas => {
                result.max_fee_per_blob_gas = tx.max_fee_per_blob_gas;
            },
            TransactionField::MaxFeePerGas => {
                result.max_fee_per_gas = tx.max_fee_per_gas;
            },
            TransactionField::MaxPriorityFeePerGas => {
                result.max_priority_fee_per_gas = tx.max_priority_fee_per_gas;
            },
            TransactionField::YParity => {
                result.y_parity = match tx.signature {
                    Some(signature) => signature.y_parity,
                    None => None,
                };
            },
            TransactionField::Chain => {
                result.chain = Some(*chain);
            },
        }
        i = i + 1;
    }
    assert(fields@.take(fields.len() as int) == fields@);
    result
}

/// What a lookup by hash holds: the transaction's data where one was found.
pub open spec fn lookup_data() -> spec_fn(Option<RpcTransaction>) -> Option<TransactionData> {
    |lookup: Option<RpcTransaction>|
        match lookup {
            Some(transaction) => Some(transaction@),
            None => None,
        }
}

/// The transactions that a list of lookups found, in the order of the
/// lookups; a lookup that found nothing leaves no trace.
pub open spec fn found_transactions(lookups: Seq<Option<RpcTransaction>>) -> Seq<TransactionData> {
    lookups.filter_map(lookup_data())
}

/// The transactions that a block in full form holds.
pub open spec fn block_data() -> spec_fn(Block) -> Seq<TransactionData> {
    |block: Block| block.full_transactions()
}

/// The transactions of every block of a list, block after block.
pub open spec fn block_transactions(blocks: Seq<Block>) -> Seq<TransactionData> {
    blocks.flat_map(block_data())
}

/// Whether every block of a list came with its transactions in full form.
pub open spec fn all_full(blocks: Seq<Block>) -> bool {
    forall|i: int| 0 <= i < blocks.len() ==> (#[trigger] blocks[i]).is_full()
}

impl Fetched {
    /// The transactions that were enumerated.
    pub open spec fn transactions(self) -> Seq<TransactionData> {
        match self {
            Fetched::Lookups(lookups) => found_transactions(lookups@),
            Fetched::Blocks(blocks) => block_transactions(blocks@),
        }
    }

    /// Whether what was fetched is in the form that resolution works on:
    /// blocks with their transactions in full.
    pub open spec fn well_formed(self) -> bool {
        match self {
            Fetched::Lookups(_) => true,
            Fetched::Blocks(blocks) => all_full(blocks@),
        }
    }
}

/// Whether what was fetched from every chain is in the form that resolution
/// works on.
pub open spec fn all_well_formed(chains: Seq<ChainFetch>) -> bool {
    forall|i: int| 0 <= i < chains.len() ==> (#[trigger] chains[i]).source.well_formed()
}

/// Whether what was fetched from every chain is in the form that resolution
/// works on: every block with its transactions in full.
pub fn fetches_are_well_formed(chains: &Vec<ChainFetch>) -> (well_formed: bool)
    ensures
        well_formed == all_well_formed(chains@),
{
    let mut i: usize = 0;
    while i < chains.len()
        invariant
            i <= chains.len(),
            forall|j: int| 0 <= j < i ==> (#[trigger] chains@[j]).source.well_formed(),
        decreases chains.len() - i,
    {
        let full = match &chains[i].source {
            Fetched::Lookups(_) => true,
            Fetched::Blocks(blocks) => blocks_are_full(blocks),
        };
        if !full {
            return false;
        }
        i = i + 1;
    }
    true
}

/// The source of a query, or the refusal of a query that has none. This is
/// settled before any chain is asked.
///
/// A query that names transactions by hash is enumerated from its ids; a
/// query without an id list, from its first block filter. An id list that is
/// empty names no transaction: beside a block filter it is still the source,
/// and gives no rows; with no block filter the query has nothing to
/// enumerate, as a query with neither has, and is refused.
pub fn transaction_source(transaction: &Transaction) -> (source: Result<
    TransactionSource<'_>,
    TransactionResolverErrors,
>)
    ensures
        source is Ok <==> transaction.has_source(),
        match source {
            Ok(TransactionSource::Ids(ids)) => transaction.ids == Some(*ids),
            Ok(TransactionSource::Block(block_id)) => transaction.ids is None
                && transaction.block_filter() == Some(block_id),
            Err(error) => error == TransactionResolverErrors::MissingTransactionHashOrFilter,
        },
{
    match transaction.ids() {
        Some(ids) => {
            if ids.len() > 0 || transaction.has_block_filter() {
                Ok(TransactionSource::Ids(ids))
            } else {
                Err(TransactionResolverErrors::MissingTransactionHashOrFilter)
            }
        },
        None => match transaction.get_block_id_filter() {
            Some(block_id) => Ok(TransactionSource::Block(block_id)),
            None => Err(TransactionResolverErrors::MissingTransactionHashOrFilter),
        },
    }
}

/// The transactions that lookups by hash found, in the order of the lookups.
///
/// `lookups` holds the chain's answer for each id. An id that the chain does
/// not know is no error: it is left out, and the others stay.
pub fn get_transactions_by_ids(lookups: &Vec<Option<RpcTransaction>>) -> (transactions: Vec<
    RpcTransaction,
>)
    ensures
        transactions_view(transactions@) == found_transactions(lookups@),
{
    let mut transactions: Vec<RpcTransaction> = Vec::new();
    let mut i: usize = 0;
    assert(lookups@.take(0) =~= Seq::<Option<RpcTransaction>>::empty());
    assert(transactions_view(transactions@) =~= found_transactions(lookups@.take(0)));
    while i < lookups.len()
        invariant
            i <= lookups.len(),
            transactions_view(transactions@) == found_transactions(lookups@.take(i as int)),
        decreases lookups.len() - i,
    {
        proof {
            lookups@.lemma_filter_map_take_succ(lookup_data(), i as int);
        }
        match &lookups[i] {
            Some(transaction) => {
                let ghost before = transactions@;
                let copy = transaction.duplicate();
                transactions.push(copy);
                assert(transactions_view(transactions@) =~= transactions_view(before).push(
                    copy@,
                ));
            },
            None => {},
        }
        i = i + 1;
    }
    assert(lookups@.take(lookups.len() as int) == lookups@);
    transactions
}

/// Whether every block of a list came with its transactions in full form.
pub fn blocks_are_full(blocks: &Vec<Block>) -> (full: bool)
    ensures
        full == all_full(blocks@),
{
    let mut i: usize = 0;
    while i < blocks.len()
        invariant
            i <= blocks.len(),
            forall|j: int| 0 <= j < i ==> (#[trigger] blocks@[j]).is_full(),
        decreases blocks.len() - i,
    {
        if !blocks[i].is_full() {
            return false;
        }
        i = i + 1;
    }
    true
}

/// The transactions of the blocks that a block filter resolved to, block
/// after block.
///
/// The blocks were asked for with their transactions in full form; one that
/// came in another form is a breach of that agreement, and is not taken.
pub fn get_transactions_by_block_id(blocks: &Vec<Block>) -> (transactions: Vec<RpcTransaction>)
    requires
        all_full(blocks@),
    ensures
        transactions_view(transactions@) == block_transactions(blocks@),
{
    let mut transactions: Vec<RpcTransaction> = Vec::new();
    let mut i: usize = 0;
    assert(blocks@.take(0) =~= Seq::<Block>::empty());
    assert(transactions_view(transactions@) =~= block_transactions(blocks@.take(0)));
    while i < blocks.len()
        invariant
            i <= blocks.len(),
            all_full(blocks@),
            transactions_view(transactions@) == block_transactions(blocks@.take(i as int)),
        decreases blocks.len() - i,
    {
        proof {
            blocks@.lemma_flat_map_take_append(block_data(), i as int);
        }
        let ghost before = transactions@;
        assert(blocks@[i as int].is_full());
        match &blocks[i].transactions {
            BlockTransactions::Full(full) => {
                let mut j: usize = 0;
                while j < full.len()
                    invariant
                        j <= full.len(),
                        transactions_view(transactions@) == transactions_view(before)
                            + transactions_view(full@).take(j as int),
                    decreases full.len() - j,
                {
                    let ghost so_far = transactions@;
                    let copy = full[j].duplicate();
                    transactions.push(copy);
                    assert(transactions_view(transactions@) =~= transactions_view(so_far).push(
                        copy@,
                    ));
                    assert(transactions_view(full@).take(j as int + 1) =~= transactions_view(
                        full@,
                    ).take(j as int).push(copy@));
                    j = j + 1;
                }
                assert(transactions_view(full@).take(full.len() as int) == transactions_view(
                    full@,
                ));
            },
            _ => {},
        }
        i = i + 1;
    }
    assert(blocks@.take(blocks.len() as int) == blocks@);
    transactions
}

/// The hash of each transaction of a list.
pub open spec fn hashes_of(transactions: Seq<TransactionData>) -> Seq<TxHash> {
    transactions.map_values(|transaction: TransactionData| transaction.hash)
}

/// The transactions whose receipts a query needs, by hash: every enumerated
/// transaction, in the order of enumeration, where the status column is asked
/// for, and none where it is not. The statuses of their receipts, in this
/// order, are the `receipts` of a `ChainFetch`.
pub fn receipt_requests(fields: &Vec<TransactionField>, source: &Fetched) -> (hashes: Vec<TxHash>)
    requires
        source.well_formed(),
    ensures
        hashes@ == if fields@.contains(TransactionField::Status) {
            hashes_of(source.transactions())
        } else {
            Seq::empty()
        },
{
    let mut hashes: Vec<TxHash> = Vec::new();
    if !needs_receipt(fields) {
        return hashes;
    }
    let rpc_transactions = match source {
        Fetched::Lookups(lookups) => get_transactions_by_ids(lookups),
        Fetched::Blocks(blocks) => get_transactions_by_block_id(blocks),
    };
    let ghost wanted = hashes_of(source.transactions());
    let mut i: usize = 0;
    while i < rpc_transactions.len()
        invariant
            i <= rpc_transactions.len(),
            transactions_view(rpc_transactions@) == source.transactions(),
            wanted == hashes_of(source.transactions()),
            hashes@ == wanted.take(i as int),
        decreases rpc_transactions.len() - i,
    {
        assert(transactions_view(rpc_transactions@)[i as int] == rpc_transactions@[i as int]@);
        hashes.push(rpc_transactions[i].hash);
        assert(wanted.take(i as int + 1) =~= wanted.take(i as int).push(wanted[i as int]));
        i = i + 1;
    }
    assert(wanted.take(rpc_transactions.len() as int) == wanted);
    hashes
}

/// What each row of a list holds.
pub open spec fn rows_view(rows: Seq<TransactionQueryRes>) -> Seq<TransactionRow> {
    rows.map_values(|row: TransactionQueryRes| row@)
}

/// The receipt status on record for the transaction at a position: what the
/// list holds there, and nothing past its end.
pub open spec fn receipt_at(receipts: Seq<Option<bool>>, position: int) -> Option<bool> {
    if 0 <= position < receipts.len() {
        receipts[position]
    } else {
        None
    }
}

/// The rows that a list of transactions gives for the requested columns, one
/// for each transaction and in their order.
pub open spec fn projected(
    transactions: Seq<TransactionData>,
    fields: Seq<TransactionField>,
    receipts: Seq<Option<bool>>,
    chain: Chain,
) -> Seq<TransactionRow> {
    Seq::new(
        transactions.len(),
        |i: int| transaction_row(transactions[i], fields, receipt_at(receipts, i), chain),
    )
}

impl ChainFetch {
    /// The rows of one chain before any predicate is applied: one for each
    /// enumerated transaction.
    pub open spec fn candidates(self, fields: Seq<TransactionField>) -> Seq<TransactionRow> {
        projected(self.source.transactions(), fields, self.receipts@, self.chain)
    }
}

/// The candidate rows of a chain, as a function of what was fetched from it.
pub open spec fn candidates_of(fields: Seq<TransactionField>) -> spec_fn(ChainFetch) -> Seq<
    TransactionRow,
> {
    |fetch: ChainFetch| fetch.candidates(fields)
}

/// The candidate rows of every chain, chain after chain.
pub open spec fn all_candidates(chains: Seq<ChainFetch>, fields: Seq<TransactionField>) -> Seq<
    TransactionRow,
> {
    chains.flat_map(candidates_of(fields))
}

/// Passing every predicate of a list, as a test on rows.
pub open spec fn kept_by(predicates: Seq<TransactionFilter>) -> spec_fn(TransactionRow) -> bool {
    |row: TransactionRow| passes_all(predicates, row)
}

/// The answer to a transaction query: of the rows that the enumerated
/// transactions of every chain give, in the order of the chains and within a
/// chain in the order of enumeration, those that pass every predicate.
pub open spec fn query_rows(
    fields: Seq<TransactionField>,
    predicates: Seq<TransactionFilter>,
    chains: Seq<ChainFetch>,
) -> Seq<TransactionRow> {
    all_candidates(chains, fields).filter(kept_by(predicates))
}

/// Appends to `results` the rows of one chain: each enumerated transaction is
/// projected onto the requested columns, and the rows that pass every
/// predicate of the query are kept.
fn resolve_chain(
    transaction: &Transaction,
    fetch: &ChainFetch,
    results: &mut Vec<TransactionQueryRes>,
)
    requires
        fetch.source.well_formed(),
    ensures
        rows_view(final(results)@) == rows_view(old(results)@) + fetch.candidates(
            transaction.fields@,
        ).filter(kept_by(transaction.predicates())),
{
    let rpc_transactions = match &fetch.source {
        Fetched::Lookups(lookups) => get_transactions_by_ids(lookups),
        Fetched::Blocks(blocks) => get_transactions_by_block_id(blocks),
    };
    let ghost before = rows_view(results@);
    let ghost candidates = fetch.candidates(transaction.fields@);
    let ghost keep = kept_by(transaction.predicates());
    assert(transactions_view(rpc_transactions@) == fetch.source.transactions());
    assert(candidates.len() == rpc_transactions.len());
    let mut i: usize = 0;
    proof {
        reveal(Seq::filter);
        assert(candidates.take(0).filter(keep) =~= Seq::<TransactionRow>::empty());
        assert(before + candidates.take(0).filter(keep) =~= before);
    }
    while i < rpc_transactions.len()
        invariant
            i <= rpc_transactions.len(),
            candidates.len() == rpc_transactions.len(),
            transactions_view(rpc_transactions@) == fetch.source.transactions(),
            candidates == fetch.candidates(transaction.fields@),
            keep == kept_by(transaction.predicates()),
            rows_view(results@) == before + candidates.take(i as int).filter(keep),
        decreases rpc_transactions.len() - i,
    {
        let receipt = if i < fetch.receipts.len() {
            fetch.receipts[i]
        } else {
            None
        };
        let row = pick_transaction_fields(
            &rpc_transactions[i],
            transaction.fields(),
            receipt,
            &fetch.chain,
        );
        proof {
            assert(transactions_view(rpc_transactions@)[i as int] == rpc_transactions@[i as int]@);
            assert(row@ == candidates[i as int]);
            assert(candidates.take(i as int + 1) =~= candidates.take(i as int).push(row@));
            candidates.take(i as int).lemma_filter_push(row@, keep);
        }
        if transaction.filter(&row) {
            let ghost so_far = results@;
            results.push(row);
            assert(rows_view(results@) =~= rows_view(so_far).push(row@));
            assert(before + candidates.take(i as int).filter(keep).push(row@) =~= (before
                + candidates.take(i as int).filter(keep)).push(row@));
        }
        i = i + 1;
    }
    assert(candidates.take(rpc_transactions.len() as int) == candidates);
}

/// Resolves a transaction query from what was fetched for it, chain by chain.
///
/// A query that names no transaction by hash and has no block filter is
/// refused, whatever was fetched and in whatever form. Any other query
/// succeeds: each transaction that was enumerated on a chain is projected
/// onto the requested columns, the rows that pass every predicate are kept,
/// and the rows of the chains follow one another in the order of the chains.
pub fn resolve_transaction_query(transaction: &Transaction, chains: &Vec<ChainFetch>) -> (result:
    Result<Vec<TransactionQueryRes>, TransactionResolverErrors>)
    requires
        transaction.has_source() ==> all_well_formed(chains@),
    ensures
        result is Ok <==> transaction.has_source(),
        match result {
            Ok(rows) => rows_view(rows@) == query_rows(
                transaction.fields@,
                transaction.predicates(),
                chains@,
            ),
            Err(error) => error == TransactionResolverErrors::MissingTransactionHashOrFilter,
        },
{
    if !transaction.has_source() {
        return Err(TransactionResolverErrors::MissingTransactionHashOrFilter);
    }
    let mut all_results: Vec<TransactionQueryRes> = Vec::new();
    let ghost keep = kept_by(transaction.predicates());
    let ghost per_chain = candidates_of(transaction.fields@);
    let mut k: usize = 0;
    proof {
        reveal(Seq::filter);
        assert(chains@.take(0) =~= Seq::<ChainFetch>::empty());
        assert(chains@.take(0).flat_map(per_chain) =~= Seq::<TransactionRow>::empty());
        assert(rows_view(all_results@) =~= Seq::<TransactionRow>::empty());
    }
    while k < chains.len()
        invariant
            k <= chains.len(),
            all_well_formed(chains@),
            keep == kept_by(transaction.predicates()),
            per_chain == candidates_of(transaction.fields@),
            rows_view(all_results@) == chains@.take(k as int).flat_map(per_chain).filter(keep),
        decreases chains.len() - k,
    {
        proof {
            chains@.lemma_flat_map_take_append(per_chain, k as int);
            Seq::filter_distributes_over_add(
                chains@.take(k as int).flat_map(per_chain),
                per_chain(chains@[k as int]),
                keep,
            );
            assert(chains@[k as int].source.well_formed());
        }
        resolve_chain(transaction, &chains[k], &mut all_results);
        k = k + 1;
    }
    assert(chains@.take(chains.len() as int) == chains@);
    Ok(all_results)
}

} // verus!
