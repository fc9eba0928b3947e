use eql_core::primitives::{Address, TxHash, U256};

#[test]
fn order_of_256_bit_integers_is_numeric() {
    let small = U256::from_u128(u128::MAX);
    let large = U256::from_halves(1, 0);
    let larger = U256::from_halves(1, 1);
    assert!(small.lt(&large));
    assert!(small.le(&large));
    assert!(!small.gt(&large));
    assert!(!small.ge(&large));
    assert!(large.gt(&small));
    assert!(large.lt(&larger));
    assert!(!larger.lt(&large));
    assert!(large.le(&large));
    assert!(large.ge(&large));
    assert!(!large.lt(&large));
    assert!(!large.gt(&large));
    assert!(U256::from_halves(2, 0).gt(&U256::from_halves(1, u128::MAX)));
    assert!(U256::from_u128(3).lt(&U256::from_u128(4)));
}

#[test]
fn halves_of_256_bit_integers() {
    assert_eq!(U256::from_u128(1000000000000000), U256 { hi: 0, lo: 1000000000000000 });
    assert_eq!(U256::from_halves(7, 9), U256 { hi: 7, lo: 9 });
    assert_ne!(U256::from_halves(7, 9), U256::from_halves(9, 7));
}

#[test]
fn addresses_are_the_same_where_every_byte_is() {
    let a = Address::new([0xab; 20]);
    let mut bytes = [0xab; 20];
    assert!(a.same(&Address::new(bytes)));
    bytes[19] = 0xac;
    assert!(!a.same(&Address::new(bytes)));
    bytes[19] = 0xab;
    bytes[0] = 0;
    assert!(!a.same(&Address::new(bytes)));
    assert_eq!(Address::new([1; 20]).0, [1; 20]);
    assert_eq!(TxHash::new([2; 32]).0, [2; 32]);
}
