//! Predicates on single values: equality and order.

use vstd::prelude::*;
use crate::primitives::{Address, U256};

verus! {

/// A test for equality with a given value, or for difference from it.
#[derive(Clone, Copy, Debug, PartialEq, Eq)]
pub enum EqualityFilter<T> {
    Eq(T),
    Neq(T),
}

/// A test of order against a given bound.
#[derive(Clone, Copy, Debug, PartialEq, Eq)]
pub enum ComparisonFilter<T> {
    Gt(T),
    Gte(T),
    Lt(T),
    Lte(T),
}

/// A test on a value that has an order: for equality or of order.
#[derive(Clone, Copy, Debug, PartialEq, Eq)]
pub enum FilterType<T> {
    Equality(EqualityFilter<T>),
    Comparison(ComparisonFilter<T>),
}

impl<T> EqualityFilter<T> {
    /// Whether `value` passes the test.
    pub open spec fn holds(self, value: T) -> bool {
        match self {
            EqualityFilter::Eq(wanted) => value == wanted,
            EqualityFilter::Neq(unwanted) => value != unwanted,
        }
    }
}

impl EqualityFilter<Address> {
    /// Whether `value` passes the test.
    pub fn accepts(&self, value: &Address) -> (passed: bool)
        ensures
            passed == self.holds(*value),
    {
        match self {
            EqualityFilter::Eq(wanted) => value.same(wanted),
            EqualityFilter::Neq(unwanted) => !value.same(unwanted),
        }
    }
}

impl EqualityFilter<bool> {
    /// Whether `value` passes the test.
    pub fn accepts(&self, value: bool) -> (passed: bool)
        ensures
            passed == self.holds(value),
    {
        match self {
            EqualityFilter::Eq(wanted) => value == *wanted,
            EqualityFilter::Neq(unwanted) => value != *unwanted,
        }
    }
}

impl EqualityFilter<u128> {
    /// Whether `value` passes the test.
    pub fn accepts(&self, value: u128) -> (passed: bool)
        ensures
            passed == self.holds(value),
    {
        match self {
            EqualityFilter::Eq(wanted) => value == *wanted,
            EqualityFilter::Neq(unwanted) => value != *unwanted,
        }
    }
}

impl EqualityFilter<U256> {
    /// Whether `value` passes the test.
    pub fn accepts(&self, value: &U256) -> (passed: bool)
        ensures
            passed == self.holds(*value),
    {
        match self {
            EqualityFilter::Eq(wanted) => *value == *wanted,
            EqualityFilter::Neq(unwanted) => *value != *unwanted,
        }
    }
}

impl ComparisonFilter<u128> {
    /// Whether `value` passes the test.
    pub open spec fn holds(self, value: u128) -> bool {
        match self {
            ComparisonFilter::Gt(bound) => value > bound,
            ComparisonFilter::Gte(bound) => value >= bound,
            ComparisonFilter::Lt(bound) => value < bound,
            ComparisonFilter::Lte(bound) => value <= bound,
        }
    }

    /// Whether `value` passes the test.
    pub fn accepts(&self, value: u128) -> (passed: bool)
        ensures
            passed == self.holds(value),
    {
        match self {
            ComparisonFilter::Gt(bound) => value > *bound,
            ComparisonFilter::Gte(bound) => value >= *bound,
            ComparisonFilter::Lt(bound) => value < *bound,
            ComparisonFilter::Lte(bound) => value <= *bound,
        }
    }
}

impl ComparisonFilter<U256> {
    /// Whether `value` passes the test, the two values taken as numbers.
    pub open spec fn holds(self, value: U256) -> bool {
        match self {
            ComparisonFilter::Gt(bound) => value.as_nat() > bound.as_nat(),
            ComparisonFilter::Gte(bound) => value.as_nat() >= bound.as_nat(),
            ComparisonFilter::Lt(bound) => value.as_nat() < bound.as_nat(),
            ComparisonFilter::Lte(bound) => value.as_nat() <= bound.as_nat(),
        }
    }

    /// Whether `value` passes the test.
    pub fn accepts(&self, value: &U256) -> (passed: bool)
        ensures
            passed == self.holds(*value),
    {
        match self {
            ComparisonFilter::Gt(bound) => value.gt(bound),
            ComparisonFilter::Gte(bound) => value.ge(bound),
            ComparisonFilter::Lt(bound) => value.lt(bound),
            ComparisonFilter::Lte(bound) => value.le(bound),
        }
    }
}

impl FilterType<u128> {
    /// Whether `value` passes the test.
    pub open spec fn holds(self, value: u128) -> bool {
        match self {
            FilterType::Equality(test) => test.holds(value),
            FilterType::Comparison(test) => test.holds(value),
        }
    }

    /// Whether `value` passes the test.
    pub fn accepts(&self, value: u128) -> (passed: bool)
        ensures
            passed == self.holds(value),
    {
        match self {
            FilterType::Equality(test) => test.accepts(value),
            FilterType::Comparison(test) => test.accepts(value),
        }
    }
}

impl FilterType<U256> {
    /// Whether `value` passes the test.
    pub open spec fn holds(self, value: U256) -> bool {
        match self {
            FilterType::Equality(test) => test.holds(value),
            FilterType::Comparison(test) => test.holds(value),
        }
    }

    /// Whether `value` passes the test.
    pub fn accepts(&self, value: &U256) -> (passed: bool)
        ensures
            passed == self.holds(*value),
    {
        match self {
            FilterType::Equality(test) => test.accepts(value),
            FilterType::Comparison(test) => test.accepts(value),
        }
    }
}

} // verus!
