//! Resolution of account queries: name resolution, field projection and the
//! all-or-nothing batch.

use vstd::prelude::*;
use crate::account::{AccountField, AccountQueryRes, AccountRow, AccountState};
use crate::chain::Chain;
use crate::entity_id::{EntityId, NameOrAddress};
use crate::primitives::Address;
use crate::sequences::lemma_prefix_contains;

verus! {

/// Why an account query could not be resolved.
#[derive(Clone, Copy, Debug, PartialEq, Eq, Structural)]
pub enum AccountResolverErrors {
    /// An identifier of the batch names another kind of entity than an account.
    MismatchEntityAndEntityId,
    /// A name of the batch could not be resolved to an address.
    EnsResolution,
}

impl AccountResolverErrors {
    /// The text of the message for an error.
    pub open spec fn spec_message(self) -> Seq<char> {
        match self {
            AccountResolverErrors::MismatchEntityAndEntityId => {
                "Mismatch between Entity and EntityId"@
            },
            AccountResolverErrors::EnsResolution => "Unable resolve ENS name"@,
        }
    }

    /// The message for an error, for a reader.
    pub fn message(&self) -> (text: String)
        ensures
            text@ == self.spec_message(),
    {
        match self {
            AccountResolverErrors::MismatchEntityAndEntityId => String::from_str(
                "Mismatch between Entity and EntityId",
            ),
            AccountResolverErrors::EnsResolution => String::from_str("Unable resolve ENS name"),
        }
    }
}

/// A name to be resolved, and the chain to ask for it.
#[derive(Clone, Copy, Debug, PartialEq, Eq)]
pub struct NameLookup<'a> {
    pub name: &'a String,
    pub chain: Chain,
}

/// A remote lookup on one account.
#[derive(Clone, Copy, Debug, PartialEq, Eq, Structural)]
pub enum AccountLookup {
    Balance,
    Nonce,
    Code,
}

impl AccountLookup {
    /// The column that the lookup is made for.
    pub open spec fn column(self) -> AccountField {
        match self {
            AccountLookup::Balance => AccountField::Balance,
            AccountLookup::Nonce => AccountField::Nonce,
            AccountLookup::Code => AccountField::Code,
        }
    }
}

/// The remote lookup that a requested column calls for. The address column
/// is answered from the identifier, without one.
pub open spec fn lookup_for() -> spec_fn(AccountField) -> Option<AccountLookup> {
    |field: AccountField|
        match field {
            AccountField::Balance => Some(AccountLookup::Balance),
            AccountField::Nonce => Some(AccountLookup::Nonce),
            AccountField::Code => Some(AccountLookup::Code),
            AccountField::Address => None,
        }
}

/// The remote lookups that a list of requested columns calls for: one for
/// each column of the list that needs one, in the order of the list.
pub open spec fn lookups_for(fields: Seq<AccountField>) -> Seq<AccountLookup> {
    fields.filter_map(lookup_for())
}

/// One identifier of a batch, with what the remote lookups for it brought back.
#[derive(Clone, Debug, PartialEq, Eq)]
pub struct AccountReport {
    /// The identifier.
    pub id: EntityId,
    /// Where the identifier is a name: the address that the canonical chain
    /// resolved it to, or `None` where the lookup failed.
    pub resolved: Option<Address>,
    /// What the queried chain reports of the account.
    pub state: AccountState,
}

/// The address that a name or address stands for, given what a lookup of the
/// name brought back.
pub open spec fn address_of(name_or_address: NameOrAddress, resolved: Option<Address>) -> Result<
    Address,
    AccountResolverErrors,
> {
    match name_or_address {
        NameOrAddress::Address(address) => Ok(address),
        NameOrAddress::Name(_) => match resolved {
            Some(address) => Ok(address),
            None => Err(AccountResolverErrors::EnsResolution),
        },
    }
}

/// The row that an account gives for a set of requested columns: a slot is
/// filled exactly where its column is among them.
pub open spec fn account_row(address: Address, fields: Seq<AccountField>, state: AccountState)
    -> AccountRow {
    AccountRow {
        nonce: if fields.contains(AccountField::Nonce) {
            Some(state.nonce)
        } else {
            None
        },
        balance: if fields.contains(AccountField::Balance) {
            Some(state.balance)
        } else {
            None
        },
        address: if fields.contains(AccountField::Address) {
            Some(address)
        } else {
            None
        },
        code: if fields.contains(AccountField::Code) {
            Some(state.code@)
        } else {
            None
        },
    }
}

/// Whether each slot of a row is filled exactly where its column is among
/// the requested ones.
pub open spec fn filled_as_requested(row: AccountRow, fields: Seq<AccountField>) -> bool {
    &&& row.nonce is Some <==> fields.contains(AccountField::Nonce)
    &&& row.balance is Some <==> fields.contains(AccountField::Balance)
    &&& row.address is Some <==> fields.contains(AccountField::Address)
    &&& row.code is Some <==> fields.contains(AccountField::Code)
}

impl AccountReport {
    /// The address that the identifier stands for, where it names an account
    /// and, if by name, the name was resolved.
    pub open spec fn address(self) -> Option<Address> {
        match self.id {
            EntityId::Account(name_or_address) => match address_of(
                name_or_address,
                self.resolved,
            ) {
                Ok(address) => Some(address),
                Err(_) => None,
            },
            _ => None,
        }
    }
}

/// Whether every identifier of a batch names an account.
pub open spec fn all_accounts(reports: Seq<AccountReport>) -> bool {
    forall|i: int| 0 <= i < reports.len() ==> (#[trigger] reports[i]).id is Account
}

/// Whether every identifier of a batch that names an account stands for an
/// address.
pub open spec fn all_resolved(reports: Seq<AccountReport>) -> bool {
    forall|i: int|
        0 <= i < reports.len() && (#[trigger] reports[i]).id is Account
            ==> reports[i].address() is Some
}

/// The account that an identifier of a batch names. An identifier of another
/// kind of entity has no place in an account query.
pub fn account_target(entity_id: &EntityId) -> (target: Result<
    &NameOrAddress,
    AccountResolverErrors,
>)
    ensures
        match *entity_id {
            EntityId::Account(name_or_address) => target == Ok::<
                &NameOrAddress,
                AccountResolverErrors,
            >(&name_or_address),
            _ => target == Err::<&NameOrAddress, AccountResolverErrors>(
                AccountResolverErrors::MismatchEntityAndEntityId,
            ),
        },
{
    match entity_id {
        EntityId::Account(name_or_address) => Ok(name_or_address),
        _ => Err(AccountResolverErrors::MismatchEntityAndEntityId),
    }
}

/// The name lookup that an identifier calls for, if any. A name is always
/// resolved on the canonical chain, whichever chain the query is aimed at;
/// an address needs no lookup.
pub fn name_lookup(name_or_address: &NameOrAddress) -> (lookup: Option<NameLookup<'_>>)
    ensures
        match *name_or_address {
            NameOrAddress::Address(_) => lookup is None,
            NameOrAddress::Name(name) => lookup == Some(
                NameLookup { name: &name, chain: Chain::canonical() },
            ),
        },
{
    match name_or_address {
        NameOrAddress::Address(_) => None,
        NameOrAddress::Name(name) => Some(NameLookup { name, chain: Chain::canonical() }),
    }
}

/// The address that a name or address stands for.
///
/// An address stands for itself. A name stands for the address that the
/// canonical chain resolved it to, handed in as `resolved`; where that lookup
/// failed, for whatever reason, there is none.
pub fn to_address(name_or_address: &NameOrAddress, resolved: Option<Address>) -> (address: Result<
    Address,
    AccountResolverErrors,
>)
    ensures
        address == address_of(*name_or_address, resolved),
{
    match name_or_address {
        NameOrAddress::Address(address) => Ok(*address),
        NameOrAddress::Name(_) => match resolved {
            Some(address) => Ok(address),
            None => Err(AccountResolverErrors::EnsResolution),
        },
    }
}

/// The remote lookups to make for each account of a batch: one for each
/// requested column that needs one, in the order in which the columns were
/// asked for. Where a lookup is made twice, the later answer stands.
pub fn account_lookups(fields: &Vec<AccountField>) -> (lookups: Vec<AccountLookup>)
    ensures
        lookups@ == lookups_for(fields@),
{
    let mut lookups: Vec<AccountLookup> = Vec::new();
    let mut i: usize = 0;
    assert(fields@.take(0) =~= Seq::<AccountField>::empty());
    assert(lookups@ =~= lookups_for(fields@.take(0)));
    while i < fields.len()
        invariant
            i <= fields.len(),
            lookups@ == lookups_for(fields@.take(i as int)),
        decreases fields.len() - i,
    {
        proof {
            fields@.lemma_filter_map_take_succ(lookup_for(), i as int);
        }
        match fields[i] {
            AccountField::Balance => {
                lookups.push(AccountLookup::Balance);
            },
            AccountField::Nonce => {
                lookups.push(AccountLookup::Nonce);
            },
            AccountField::Code => {
                lookups.push(AccountLookup::Code);
            },
            AccountField::Address => {},
        }
        i = i + 1;
    }
    assert(fields@.take(fields.len() as int) == fields@);
    lookups
}

/// Projects the account at `address` onto the requested columns.
///
/// `state` is what the chain reports of the account; of it only what the
/// requested columns call for is read.
pub fn get_account(address: Address, fields: &Vec<AccountField>, state: &AccountState) -> (account:
    AccountQueryRes)
    ensures
        account@ == account_row(address, fields@, *state),
        filled_as_requested(account@, fields@),
{
    let mut account = AccountQueryRes::default();
    let mut i: usize = 0;
    assert(fields@.take(0) =~= Seq::<AccountField>::empty());
    while i < fields.len()
        invariant
            i <= fields.len(),
            account@ == account_row(address, fields@.take(i as int), *state),
        decreases fields.len() - i,
    {
        proof {
            lemma_prefix_contains(fields@, i as int);
        }
        match fields[i] {
            AccountField::Balance => {
                account.balance = Some(state.balance);
            },
            AccountField::Nonce => {
                account.nonce = Some(state.nonce);
            },
            AccountField::Address => {
                account.address = Some(address);
            },
            AccountField::Code => {
                account.code = Some(state.code.clone());
            },
        }
        i = i + 1;
    }
    assert(fields@.take(fields.len() as int) == fields@);
    account
}

/// Resolves a batch of account identifiers from what was looked up for them.
///
/// The batch is resolved as a whole or not at all. It fails with
/// `MismatchEntityAndEntityId` where any identifier names another kind of
/// entity; failing that, with `EnsResolution` where any name was not
/// resolved. Otherwise it gives one row for each identifier, in their order,
/// and each row has a slot filled exactly where its column was asked for.
pub fn resolve_account_query(reports: &Vec<AccountReport>, fields: &Vec<AccountField>) -> (result:
    Result<Vec<AccountQueryRes>, AccountResolverErrors>)
    ensures
        match result {
            Ok(rows) => {
                &&& all_accounts(reports@)
                &&& all_resolved(reports@)
                &&& rows.len() == reports.len()
                &&& forall|i: int|
                    0 <= i < rows.len() ==> {
                        &&& reports[i].address() matches Some(address)
                        &&& (#[trigger] rows[i])@ == account_row(
                            address,
                            fields@,
                            reports[i].state,
                        )
                        &&& filled_as_requested(rows[i]@, fields@)
                    }
            },
            Err(AccountResolverErrors::MismatchEntityAndEntityId) => !all_accounts(reports@),
            Err(AccountResolverErrors::EnsResolution) => all_accounts(reports@) && !all_resolved(
                reports@,
            ),
        },
{
    let mut k: usize = 0;
    while k < reports.len()
        invariant
            k <= reports.len(),
            forall|j: int| 0 <= j < k ==> (#[trigger] reports[j]).id is Account,
        decreases reports.len() - k,
    {
        if !reports[k].id.is_account() {
            return Err(AccountResolverErrors::MismatchEntityAndEntityId);
        }
        k = k + 1;
    }
    let mut rows: Vec<AccountQueryRes> = Vec::new();
    let mut i: usize = 0;
    while i < reports.len()
        invariant
            i <= reports.len(),
            all_accounts(reports@),
            rows.len() == i,
            forall|j: int| 0 <= j < i ==> (#[trigger] reports[j]).address() is Some,
            forall|j: int|
                0 <= j < i ==> {
                    &&& reports[j].address() matches Some(address)
                    &&& (#[trigger] rows[j])@ == account_row(address, fields@, reports[j].state)
                    &&& filled_as_requested(rows[j]@, fields@)
                },
        decreases reports.len() - i,
    {
        let report = &reports[i];
        assert(reports[i as int].id is Account);
        match &report.id {
            EntityId::Account(name_or_address) => {
                match to_address(name_or_address, report.resolved) {
                    Ok(address) => {
                        let row = get_account(address, fields, &report.state);
                        rows.push(row);
                    },
                    Err(error) => {
                        assert(reports[i as int].address() is None);
                        return Err(error);
                    },
                }
            },
            _ => {},
        }
        i = i + 1;
    }
    Ok(rows)
}

/// Of the state of an account only what the requested columns call for is
/// read: two states that agree there give the same row, so what was not
/// looked up may stand at any value.
pub proof fn lemma_row_reads_requested_only(
    address: Address,
    fields: Seq<AccountField>,
    state: AccountState,
    other: AccountState,
)
    requires
        fields.contains(AccountField::Balance) ==> state.balance == other.balance,
        fields.contains(AccountField::Nonce) ==> state.nonce == other.nonce,
        fields.contains(AccountField::Code) ==> state.code@ == other.code@,
    ensures
        account_row(address, fields, state) == account_row(address, fields, other),
{
}

/// The lookups that are made cover what a row reads: a lookup is among those
/// made exactly when its column is among those asked for.
pub proof fn lemma_lookups_cover_columns(fields: Seq<AccountField>, lookup: AccountLookup)
    ensures
        lookups_for(fields).contains(lookup) <==> fields.contains(lookup.column()),
    decreases fields.len(),
{
    if fields.len() > 0 {
        let rest = fields.drop_last();
        let last = fields.last();
        lemma_lookups_cover_columns(rest, lookup);
        let earlier = lookups_for(rest);
        let made = lookups_for(fields);
        assert(fields =~= rest.push(last));
        if made.contains(lookup) {
            let at = choose|j: int| 0 <= j < made.len() && made[j] == lookup;
            if at < earlier.len() {
                assert(earlier[at] == lookup);
                let before = choose|j: int| 0 <= j < rest.len() && rest[j] == lookup.column();
                assert(fields[before] == lookup.column());
            } else {
                assert(fields[fields.len() - 1] == lookup.column());
            }
        }
        if fields.contains(lookup.column()) {
            let at = choose|j: int| 0 <= j < fields.len() && fields[j] == lookup.column();
            if at < rest.len() {
                assert(rest[at] == lookup.column());
                let before = choose|j: int| 0 <= j < earlier.len() && earlier[j] == lookup;
                assert(made[before] == lookup);
            } else {
                assert(made[made.len() - 1] == lookup);
            }
        }
    }
}

} // verus!
