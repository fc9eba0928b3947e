//! Resolution of field-and-filter queries over on-chain entities.
//!
//! The library holds the decisions of query resolution as functions on plain
//! values: which remote lookups a query needs, how the values that came back
//! are projected onto the requested columns, and which rows the query's
//! predicates keep. Talking to a chain is left to the caller.

pub mod account;
pub mod block;
pub mod chain;
pub mod entity_id;
pub mod filters;
pub mod primitives;
pub mod resolve_account;
pub mod resolve_transaction;
pub mod sequences;
pub mod transaction;
pub mod transaction_laws;
pub mod transaction_query;
