use eql_core::account::{AccountField, AccountQueryRes, AccountState};
use eql_core::block::{BlockId, BlockNumberOrTag};
use eql_core::chain::{Chain, CANONICAL_CHAIN_ID};
use eql_core::entity_id::{EntityId, NameOrAddress};
use eql_core::primitives::{Address, TxHash, U256};
use eql_core::resolve_account::{
    account_lookups, get_account, name_lookup, resolve_account_query, to_address, AccountLookup,
    AccountReport, AccountResolverErrors, NameLookup,
};

fn address(n: u8) -> Address {
    Address::new([n; 20])
}

fn state(n: u8) -> AccountState {
    AccountState { balance: U256::from_u128(1000 + n as u128), nonce: n as u64, code: vec![n, n] }
}

fn by_address(n: u8) -> AccountReport {
    AccountReport {
        id: EntityId::Account(NameOrAddress::Address(address(n))),
        resolved: None,
        state: state(n),
    }
}

fn by_name(name: &str, resolved: Option<Address>, n: u8) -> AccountReport {
    AccountReport {
        id: EntityId::Account(NameOrAddress::Name(name.to_string())),
        resolved,
        state: state(n),
    }
}

fn other_kind() -> AccountReport {
    AccountReport {
        id: EntityId::Block(BlockId::Number(BlockNumberOrTag::Latest)),
        resolved: None,
        state: state(0),
    }
}

#[test]
fn one_row_for_each_identifier_with_the_columns_asked_for() {
    let reports = vec![by_address(1), by_name("vitalik.eth", Some(address(2)), 2), by_address(3)];
    let fields = vec![AccountField::Balance, AccountField::Address];
    let rows = resolve_account_query(&reports, &fields).unwrap();
    let row = |n: u8| AccountQueryRes {
        nonce: None,
        balance: Some(U256 { hi: 0, lo: 1000 + n as u128 }),
        address: Some(address(n)),
        code: None,
    };
    assert_eq!(rows, vec![row(1), row(2), row(3)]);

    let rows = resolve_account_query(&reports, &AccountField::all_variants()).unwrap();
    assert_eq!(rows.len(), 3);
    assert_eq!(
        rows[1],
        AccountQueryRes {
            nonce: Some(2),
            balance: Some(U256 { hi: 0, lo: 1002 }),
            address: Some(address(2)),
            code: Some(vec![2, 2]),
        }
    );

    let rows = resolve_account_query(&reports, &Vec::new()).unwrap();
    assert_eq!(rows, vec![AccountQueryRes::default(); 3]);
    assert_eq!(resolve_account_query(&Vec::new(), &fields), Ok(Vec::new()));
}

#[test]
fn a_zero_that_was_asked_for_is_told_from_a_column_that_was_not() {
    let empty = AccountState { balance: U256::from_u128(0), nonce: 0, code: Vec::new() };
    let row = get_account(address(5), &vec![AccountField::Nonce, AccountField::Code], &empty);
    assert_eq!(
        row,
        AccountQueryRes { nonce: Some(0), balance: None, address: None, code: Some(Vec::new()) }
    );
    let row = get_account(address(5), &vec![AccountField::Balance, AccountField::Balance], &empty);
    assert_eq!(
        row,
        AccountQueryRes {
            nonce: None,
            balance: Some(U256 { hi: 0, lo: 0 }),
            address: None,
            code: None,
        }
    );
}

#[test]
fn each_account_column_fills_its_own_slot() {
    for field in AccountField::all_variants() {
        let row = get_account(address(7), &vec![field], &state(7));
        assert_eq!(row.balance.is_some(), field == AccountField::Balance);
        assert_eq!(row.nonce.is_some(), field == AccountField::Nonce);
        assert_eq!(row.address.is_some(), field == AccountField::Address);
        assert_eq!(row.code.is_some(), field == AccountField::Code);
    }
    let row = get_account(address(7), &AccountField::all_variants(), &state(7));
    assert_eq!(row.balance, Some(U256 { hi: 0, lo: 1007 }));
    assert_eq!(row.nonce, Some(7));
    assert_eq!(row.address, Some(address(7)));
    assert_eq!(row.code, Some(vec![7, 7]));
}

#[test]
fn another_kind_of_identifier_fails_the_whole_batch() {
    let fields = AccountField::all_variants();
    let last = vec![by_address(1), by_address(2), other_kind()];
    assert_eq!(
        resolve_account_query(&last, &fields),
        Err(AccountResolverErrors::MismatchEntityAndEntityId)
    );
    let transaction = AccountReport {
        id: EntityId::Transaction(TxHash::new([9; 32])),
        resolved: Some(address(1)),
        state: state(1),
    };
    assert_eq!(
        resolve_account_query(&vec![transaction], &fields),
        Err(AccountResolverErrors::MismatchEntityAndEntityId)
    );
    // The kind of every identifier is settled before any name: the mismatch wins.
    let after_a_failed_name = vec![by_name("nobody.eth", None, 1), other_kind()];
    assert_eq!(
        resolve_account_query(&after_a_failed_name, &fields),
        Err(AccountResolverErrors::MismatchEntityAndEntityId)
    );
}

#[test]
fn an_unresolved_name_fails_the_whole_batch() {
    let fields = vec![AccountField::Address];
    let reports = vec![by_address(1), by_name("nobody.eth", None, 2), by_address(3)];
    assert_eq!(resolve_account_query(&reports, &fields), Err(AccountResolverErrors::EnsResolution));
}

#[test]
fn an_address_stands_for_itself_and_a_name_for_what_it_resolved_to() {
    let plain = NameOrAddress::Address(address(1));
    let name = NameOrAddress::Name("vitalik.eth".to_string());
    assert_eq!(to_address(&plain, None), Ok(address(1)));
    assert_eq!(to_address(&plain, Some(address(2))), Ok(address(1)));
    assert_eq!(to_address(&name, Some(address(2))), Ok(address(2)));
    assert_eq!(to_address(&name, None), Err(AccountResolverErrors::EnsResolution));
}

#[test]
fn names_are_resolved_on_the_canonical_chain() {
    assert_eq!(CANONICAL_CHAIN_ID, 1);
    assert_eq!(Chain::canonical(), Chain { id: 1 });
    assert_eq!(name_lookup(&NameOrAddress::Address(address(1))), None);
    let text = "vitalik.eth".to_string();
    assert_eq!(
        name_lookup(&NameOrAddress::Name(text.clone())),
        Some(NameLookup { name: &text, chain: Chain { id: 1 } })
    );
}

#[test]
fn lookups_follow_the_columns_asked_for() {
    assert_eq!(account_lookups(&Vec::new()), Vec::new());
    assert_eq!(account_lookups(&vec![AccountField::Address]), Vec::new());
    assert_eq!(
        account_lookups(&vec![AccountField::Code, AccountField::Address, AccountField::Code]),
        vec![AccountLookup::Code, AccountLookup::Code]
    );
    assert_eq!(
        account_lookups(&vec![AccountField::Nonce, AccountField::Balance]),
        vec![AccountLookup::Nonce, AccountLookup::Balance]
    );
    assert_eq!(
        account_lookups(&AccountField::all_variants()),
        vec![AccountLookup::Balance, AccountLookup::Nonce, AccountLookup::Code]
    );
}

#[test]
fn what_was_not_looked_up_plays_no_part() {
    let fields = vec![AccountField::Balance, AccountField::Address];
    let other = AccountState { nonce: 99, code: vec![1, 2, 3], ..state(4) };
    assert_eq!(get_account(address(4), &fields, &state(4)), get_account(address(4), &fields, &other));
}

#[test]
fn account_error_messages() {
    assert_eq!(
        AccountResolverErrors::MismatchEntityAndEntityId.message(),
        "Mismatch between Entity and EntityId"
    );
    assert_eq!(AccountResolverErrors::EnsResolution.message(), "Unable resolve ENS name");
}

#[test]
fn identifiers_know_their_kind() {
    assert!(EntityId::Account(NameOrAddress::Address(address(1))).is_account());
    assert!(EntityId::Account(NameOrAddress::Name("a.eth".to_string())).is_account());
    assert!(!EntityId::Block(BlockId::Number(BlockNumberOrTag::Number(1))).is_account());
    assert!(!EntityId::Transaction(TxHash::new([0; 32])).is_account());
}
