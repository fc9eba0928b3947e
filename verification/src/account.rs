//! Accounts as a chain reports them, and the rows a query returns for them.

use vstd::prelude::*;
use crate::primitives::{Address, U256};

verus! {

/// A column that an account query can ask for.
#[derive(Clone, Copy, Debug, PartialEq, Eq, Hash, Structural)]
pub enum AccountField {
    Balance,
    Nonce,
    Address,
    Code,
}

impl AccountField {
    /// Every column, each once, in the order of their declaration.
    pub open spec fn spec_all_variants() -> Seq<AccountField> {
        seq![AccountField::Balance, AccountField::Nonce, AccountField::Address, AccountField::Code]
    }

    /// Every column, each once, in the order of their declaration.
    pub fn all_variants() -> (all: Vec<AccountField>)
        ensures
            all@ == AccountField::spec_all_variants(),
    {
        let all = vec![
            AccountField::Balance,
            AccountField::Nonce,
            AccountField::Address,
            AccountField::Code,
        ];
        assert(all@ =~= AccountField::spec_all_variants());
        all
    }
}

/// The list of every column leaves none out.
pub proof fn lemma_all_variants_complete(field: AccountField)
    ensures
        AccountField::spec_all_variants().contains(field),
{
    let all = AccountField::spec_all_variants();
    let position: int = match field {
        AccountField::Balance => 0,
        AccountField::Nonce => 1,
        AccountField::Address => 2,
        AccountField::Code => 3,
    };
    assert(all[position] == field);
}

/// What a chain reports of the account at one address.
#[derive(Clone, Debug, PartialEq, Eq)]
pub struct AccountState {
    /// The balance of the account.
    pub balance: U256,
    /// The number of transactions that the account has sent.
    pub nonce: u64,
    /// The code deployed at the address; empty where there is none.
    pub code: Vec<u8>,
}

/// One row of an account query: a slot for each column, filled exactly where
/// the column was asked for. An unset slot says that the column was not
/// asked for, which a zero in it could not.
#[derive(Clone, Debug, PartialEq, Eq)]
pub struct AccountQueryRes {
    pub nonce: Option<u64>,
    pub balance: Option<U256>,
    pub address: Option<Address>,
    pub code: Option<Vec<u8>>,
}

/// What an `AccountQueryRes` holds, with the code as a sequence of bytes.
pub ghost struct AccountRow {
    pub nonce: Option<u64>,
    pub balance: Option<U256>,
    pub address: Option<Address>,
    pub code: Option<Seq<u8>>,
}

impl AccountRow {
    /// The row with every slot unset.
    pub open spec fn empty() -> AccountRow {
        AccountRow { nonce: None, balance: None, address: None, code: None }
    }
}

impl View for AccountQueryRes {
    type V = AccountRow;

    open spec fn view(&self) -> AccountRow {
        AccountRow {
            nonce: self.nonce,
            balance: self.balance,
            address: self.address,
            code: match self.code {
                Some(code) => Some(code@),
                None => None,
            },
        }
    }
}

impl Default for AccountQueryRes {
    /// The row with every slot unset.
    fn default() -> (row: AccountQueryRes)
        ensures
            row@ == AccountRow::empty(),
    {
        AccountQueryRes { nonce: None, balance: None, address: None, code: None }
    }
}

} // verus!
