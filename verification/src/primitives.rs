//! Fixed-width values that chains report: addresses, hashes and 256-bit integers.

use vstd::prelude::*;

verus! {

/// A 20-byte account address.
#[derive(Clone, Copy, Debug, PartialEq, Eq, Hash)]
pub struct Address(pub [u8; 20]);

/// A 32-byte transaction hash.
#[derive(Clone, Copy, Debug, PartialEq, Eq, Hash)]
pub struct TxHash(pub [u8; 32]);

/// An unsigned 256-bit integer, held as two 128-bit halves.
#[derive(Clone, Copy, Debug, PartialEq, Eq, Hash, Structural)]
pub struct U256 {
    /// The most significant 128 bits.
    pub hi: u128,
    /// The least significant 128 bits.
    pub lo: u128,
}

/// Two to the power of 128: the weight of the upper half of a `U256`.
pub open spec fn pow2_128() -> nat {
    0x1_0000_0000_0000_0000_0000_0000_0000_0000nat
}

impl Address {
    /// The address made of the given bytes.
    pub fn new(bytes: [u8; 20]) -> (address: Address)
        ensures
            address.0 == bytes,
    {
        Address(bytes)
    }

    /// Whether two addresses hold the same bytes.
    pub fn same(&self, other: &Address) -> (equal: bool)
        ensures
            equal == (*self == *other),
    {
        let mut i: usize = 0;
        while i < 20
            invariant
                i <= 20,
                forall|j: int| 0 <= j < i ==> self.0[j] == other.0[j],
            decreases 20 - i,
        {
            if self.0[i] != other.0[i] {
                return false;
            }
            i = i + 1;
        }
        assert(self.0 =~= other.0);
        true
    }
}

impl TxHash {
    /// The hash made of the given bytes.
    pub fn new(bytes: [u8; 32]) -> (hash: TxHash)
        ensures
            hash.0 == bytes,
    {
        TxHash(bytes)
    }
}

impl U256 {
    /// The number that the two halves stand for.
    pub open spec fn as_nat(self) -> nat {
        self.hi as nat * pow2_128() + self.lo as nat
    }

    /// The 256-bit integer with the given upper and lower halves.
    pub fn from_halves(hi: u128, lo: u128) -> (value: U256)
        ensures
            value.hi == hi,
            value.lo == lo,
    {
        U256 { hi, lo }
    }

    /// The 256-bit integer that equals a 128-bit one.
    pub fn from_u128(n: u128) -> (value: U256)
        ensures
            value.as_nat() == n,
    {
        U256 { hi: 0, lo: n }
    }

    /// `self < other`, as numbers.
    pub fn lt(&self, other: &U256) -> (less: bool)
        ensures
            less == (self.as_nat() < other.as_nat()),
    {
        proof {
            lemma_order_by_halves(*self, *other);
        }
        self.hi < other.hi || (self.hi == other.hi && self.lo < other.lo)
    }

    /// `self <= other`, as numbers.
    pub fn le(&self, other: &U256) -> (at_most: bool)
        ensures
            at_most == (self.as_nat() <= other.as_nat()),
    {
        !other.lt(self)
    }

    /// `self > other`, as numbers.
    pub fn gt(&self, other: &U256) -> (greater: bool)
        ensures
            greater == (self.as_nat() > other.as_nat()),
    {
        other.lt(self)
    }

    /// `self >= other`, as numbers.
    pub fn ge(&self, other: &U256) -> (at_least: bool)
        ensures
            at_least == (self.as_nat() >= other.as_nat()),
    {
        !self.lt(other)
    }
}

/// The numeric order of two 256-bit integers is the lexicographic order of
/// their halves, upper half first.
pub proof fn lemma_order_by_halves(a: U256, b: U256)
    ensures
        a.as_nat() < b.as_nat() <==> (a.hi < b.hi || (a.hi == b.hi && a.lo < b.lo)),
{
}

/// Two 256-bit integers that stand for the same number are the same value.
pub proof fn lemma_as_nat_injective(a: U256, b: U256)
    requires
        a.as_nat() == b.as_nat(),
    ensures
        a == b,
{
    lemma_order_by_halves(a, b);
    lemma_order_by_halves(b, a);
}

} // verus!
