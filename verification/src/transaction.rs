//! Transactions as a chain reports them, and the rows a query returns for them.

use vstd::prelude::*;
use crate::chain::Chain;
use crate::primitives::{Address, TxHash, U256};

verus! {

/// A column that a transaction query can ask for.
#[derive(Clone, Copy, Debug, PartialEq, Eq, Hash, Structural)]
pub enum TransactionField {
    TransactionType,
    Hash,
    From,
    To,
    Data,
    Value,
    GasPrice,
    Gas,
    Status,
    ChainId,
    V,
    R,
    S,
    MaxFeePerBlobGas,
    MaxFeePerGas,
    MaxPriorityFeePerGas,
    YParity,
    Chain,
}

impl TransactionField {
    /// Every column, each once, in the order of their declaration.
    pub open spec fn spec_all_variants() -> Seq<TransactionField> {
        seq![
            TransactionField::TransactionType,
            TransactionField::Hash,
            TransactionField::From,
            TransactionField::To,
            TransactionField::Data,
            TransactionField::Value,
            TransactionField::GasPrice,
            TransactionField::Gas,
            TransactionField::Status,
            TransactionField::ChainId,
            TransactionField::V,
            TransactionField::R,
            TransactionField::S,
            TransactionField::MaxFeePerBlobGas,
            TransactionField::MaxFeePerGas,
            TransactionField::MaxPriorityFeePerGas,
            TransactionField::YParity,
            TransactionField::Chain,
        ]
    }

    /// Every column, each once, in the order of their declaration.
    pub fn all_variants() -> (all: Vec<TransactionField>)
        ensures
            all@ == TransactionField::spec_all_variants(),
    {
        let all = vec![
            TransactionField::TransactionType,
            TransactionField::Hash,
            TransactionField::From,
            TransactionField::To,
            TransactionField::Data,
            TransactionField::Value,
            TransactionField::GasPrice,
            TransactionField::Gas,
            TransactionField::Status,
            TransactionField::ChainId,
            TransactionField::V,
            TransactionField::R,
            TransactionField::S,
            TransactionField::MaxFeePerBlobGas,
            TransactionField::MaxFeePerGas,
            TransactionField::MaxPriorityFeePerGas,
            TransactionField::YParity,
            TransactionField::Chain,
        ];
        assert(all@ =~= TransactionField::spec_all_variants());
        all
    }
}

/// The list of every column leaves none out.
pub proof fn lemma_all_variants_complete(field: TransactionField)
    ensures
        TransactionField::spec_all_variants().contains(field),
{
    let all = TransactionField::spec_all_variants();
    let position: int = match field {
        TransactionField::TransactionType => 0,
        TransactionField::Hash => 1,
        TransactionField::From => 2,
        TransactionField::To => 3,
        TransactionField::Data => 4,
        TransactionField::Value => 5,
        TransactionField::GasPrice => 6,
        TransactionField::Gas => 7,
        TransactionField::Status => 8,
        TransactionField::ChainId => 9,
        TransactionField::V => 10,
        TransactionField::R => 11,
        TransactionField::S => 12,
        TransactionField::MaxFeePerBlobGas => 13,
        TransactionField::MaxFeePerGas => 14,
        TransactionField::MaxPriorityFeePerGas => 15,
        TransactionField::YParity => 16,
        TransactionField::Chain => 17,
    };
    assert(all[position] == field);
}

/// The signature of a transaction.
#[derive(Clone, Copy, Debug, PartialEq, Eq, Structural)]
pub struct Signature {
    pub r: U256,
    pub s: U256,
    pub v: U256,
    pub y_parity: Option<bool>,
}

/// A transaction in full form, as a chain hands it out.
#[derive(Clone, Debug, PartialEq, Eq)]
pub struct RpcTransaction {
    pub hash: TxHash,
    pub from: Address,
    pub to: Option<Address>,
    pub value: U256,
    pub gas_price: Option<u128>,
    pub gas: u128,
    pub max_fee_per_gas: Option<u128>,
    pub max_priority_fee_per_gas: Option<u128>,
    pub max_fee_per_blob_gas: Option<u128>,
    pub input: Vec<u8>,
    pub signature: Option<Signature>,
    pub chain_id: Option<u64>,
    pub transaction_type: Option<u8>,
}

/// What an `RpcTransaction` holds, with the call data as a sequence of bytes.
pub ghost struct TransactionData {
    pub hash: TxHash,
    pub from: Address,
    pub to: Option<Address>,
    pub value: U256,
    pub gas_price: Option<u128>,
    pub gas: u128,
    pub max_fee_per_gas: Option<u128>,
    pub max_priority_fee_per_gas: Option<u128>,
    pub max_fee_per_blob_gas: Option<u128>,
    pub input: Seq<u8>,
    pub signature: Option<Signature>,
    pub chain_id: Option<u64>,
    pub transaction_type: Option<u8>,
}

impl View for RpcTransaction {
    type V = TransactionData;

    open spec fn view(&self) -> TransactionData {
        TransactionData {
            hash: self.hash,
            from: self.from,
            to: self.to,
            value: self.value,
            gas_price: self.gas_price,
            gas: self.gas,
            max_fee_per_gas: self.max_fee_per_gas,
            max_priority_fee_per_gas: self.max_priority_fee_per_gas,
            max_fee_per_blob_gas: self.max_fee_per_blob_gas,
            input: self.input@,
            signature: self.signature,
            chain_id: self.chain_id,
            transaction_type: self.transaction_type,
        }
    }
}

impl RpcTransaction {
    /// A second transaction that holds what this one holds.
    pub fn duplicate(&self) -> (copy: RpcTransaction)
        ensures
            copy@ == self@,
    {
        RpcTransaction {
            hash: self.hash,
            from: self.from,
            to: self.to,
            value: self.value,
            gas_price: self.gas_price,
            gas: self.gas,
            max_fee_per_gas: self.max_fee_per_gas,
            max_priority_fee_per_gas: self.max_priority_fee_per_gas,
            max_fee_per_blob_gas: self.max_fee_per_blob_gas,
            input: self.input.clone(),
            signature: self.signature,
            chain_id: self.chain_id,
            transaction_type: self.transaction_type,
        }
    }
}

/// One row of a transaction query: a slot for each column, filled only where
/// the column was asked for and the chain had a value for it.
#[derive(Clone, Debug, PartialEq, Eq)]
pub struct TransactionQueryRes {
    pub transaction_type: Option<u8>,
    pub hash: Option<TxHash>,
    pub from: Option<Address>,
    pub to: Option<Address>,
    pub data: Option<Vec<u8>>,
    pub value: Option<U256>,
    pub gas_price: Option<u128>,
    pub gas: Option<u128>,
    pub status: Option<bool>,
    pub chain_id: Option<u64>,
    pub v: Option<U256>,
    pub r: Option<U256>,
    pub s: Option<U256>,
    pub max_fee_per_blob_gas: Option<u128>,
    pub max_fee_per_gas: Option<u128>,
    pub max_priority_fee_per_gas: Option<u128>,
    pub y_parity: Option<bool>,
    pub chain: Option<Chain>,
}

/// What a `TransactionQueryRes` holds, with the call data as a sequence of bytes.
pub ghost struct TransactionRow {
    pub transaction_type: Option<u8>,
    pub hash: Option<TxHash>,
    pub from: Option<Address>,
    pub to: Option<Address>,
    pub data: Option<Seq<u8>>,
    pub value: Option<U256>,
    pub gas_price: Option<u128>,
    pub gas: Option<u128>,
    pub status: Option<bool>,
    pub chain_id: Option<u64>,
    pub v: Option<U256>,
    pub r: Option<U256>,
    pub s: Option<U256>,
    pub max_fee_per_blob_gas: Option<u128>,
    pub max_fee_per_gas: Option<u128>,
    pub max_priority_fee_per_gas: Option<u128>,
    pub y_parity: Option<bool>,
    pub chain: Option<Chain>,
}

impl TransactionRow {
    /// The row with every slot unset.
    pub open spec fn empty() -> TransactionRow {
        TransactionRow {
            transaction_type: None,
            hash: None,
            from: None,
            to: None,
            data: None,
            value: None,
            gas_price: None,
            gas: None,
            status: None,
            chain_id: None,
            v: None,
            r: None,
            s: None,
            max_fee_per_blob_gas: None,
            max_fee_per_gas: None,
            max_priority_fee_per_gas: None,
            y_parity: None,
            chain: None,
        }
    }
}

impl View for TransactionQueryRes {
    type V = TransactionRow;

    open spec fn view(&self) -> TransactionRow {
        TransactionRow {
            transaction_type: self.transaction_type,
            hash: self.hash,
            from: self.from,
            to: self.to,
            data: match self.data {
                Some(bytes) => Some(bytes@),
                None => None,
            },
            value: self.value,
            gas_price: self.gas_price,
            gas: self.gas,
            status: self.status,
            chain_id: self.chain_id,
            v: self.v,
            r: self.r,
            s: self.s,
            max_fee_per_blob_gas: self.max_fee_per_blob_gas,
            max_fee_per_gas: self.max_fee_per_gas,
            max_priority_fee_per_gas: self.max_priority_fee_per_gas,
            y_parity: self.y_parity,
            chain: self.chain,
        }
    }
}

impl Default for TransactionQueryRes {
    /// The row with every slot unset.
    fn default() -> (row: TransactionQueryRes)
        ensures
            row@ == TransactionRow::empty(),
    {
        TransactionQueryRes {
            transaction_type: None,
            hash: None,
            from: None,
            to: None,
            data: None,
            value: None,
            gas_price: None,
            gas: None,
            status: None,
            chain_id: None,
            v: None,
            r: None,
            s: None,
            max_fee_per_blob_gas: None,
            max_fee_per_gas: None,
            max_priority_fee_per_gas: None,
            y_parity: None,
            chain: None,
        }
    }
}

} // verus!
