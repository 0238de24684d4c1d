//! Amounts of money.

use vstd::prelude::*;

use crate::outside::{zatoshis_from_u64, MAX_MONEY};

verus! {

/// A number of zatoshis that can exist.
#[derive(Clone, Copy, Debug)]
pub struct Amount {
    zatoshis: u64,
}

impl View for Amount {
    type V = u64;

    closed spec fn view(&self) -> u64 {
        self.zatoshis
    }
}

impl Amount {
    #[verifier::type_invariant]
    spec fn possible(self) -> bool {
        self.zatoshis <= MAX_MONEY
    }

    /// Takes a number of zatoshis that can exist.
    pub fn from_u64(zatoshis: u64) -> (amount: Option<Amount>)
        ensures
            match amount {
                Some(a) => zatoshis <= MAX_MONEY && a@ == zatoshis,
                None => zatoshis > MAX_MONEY,
            },
            amount is Some <==> zatoshis <= 2_100_000_000_000_000,
    {
        match zatoshis_from_u64(zatoshis) {
            Some(zatoshis) => Some(Amount { zatoshis }),
            None => None,
        }
    }

    /// The number of zatoshis.
    pub fn into_u64(self) -> (zatoshis: u64)
        ensures
            zatoshis == self@,
            zatoshis <= MAX_MONEY,
    {
        proof {
            use_type_invariant(self);
        }
        self.zatoshis
    }
}

/// The number of zatoshis in an optional amount.
pub open spec fn zatoshis_in(value: Option<Amount>) -> Option<u64> {
    match value {
        Some(amount) => Some(amount@),
        None => None,
    }
}

/// Turns an optional amount into an optional number.
pub fn zatoshis_to_u64(value: Option<Amount>) -> (zatoshis: Option<u64>)
    ensures
        zatoshis == zatoshis_in(value),
        zatoshis is Some <==> value is Some,
        zatoshis is Some ==> zatoshis->0 == value->0@ && zatoshis->0 <= MAX_MONEY,
{
    match value {
        Some(amount) => Some(amount.into_u64()),
        None => None,
    }
}

/// The sum of two numbers of which either may be unknown: an unknown one adds
/// nothing, and two unknown ones have no sum.
pub open spec fn sum_of(left: Option<u64>, right: Option<u64>) -> Option<int> {
    match (left, right) {
        (Some(a), Some(b)) => Some(a + b),
        (Some(a), None) => Some(a as int),
        (None, Some(b)) => Some(b as int),
        (None, None) => None,
    }
}

/// An optional number as an integer.
pub open spec fn as_int(value: Option<u64>) -> Option<int> {
    match value {
        Some(v) => Some(v as int),
        None => None,
    }
}

/// Sums two numbers of which either may be unknown.
pub fn sum_options(left: Option<u64>, right: Option<u64>) -> (sum: Option<u64>)
    requires
        sum_of(left, right) is Some ==> sum_of(left, right)->0 <= u64::MAX,
    ensures
        as_int(sum) == sum_of(left, right),
        sum is Some <==> left is Some || right is Some,
        left is Some && right is Some ==> sum->0 == left->0 + right->0,
        left is Some && right is None ==> sum == left,
        left is None && right is Some ==> sum == right,
{
    match (left, right) {
        (Some(a), Some(b)) => Some(a + b),
        (Some(a), None) => Some(a),
        (None, Some(b)) => Some(b),
        (None, None) => None,
    }
}

/// It does not matter which of two numbers is named first, and an unknown one
/// changes nothing.
pub proof fn sum_is_symmetric(left: Option<u64>, right: Option<u64>)
    ensures
        sum_of(left, right) == sum_of(right, left),
        sum_of(left, None) == as_int(left),
{
}

/// The number in an optional amount is that amount's own.
pub proof fn zatoshis_are_those_of_amount(value: Option<Amount>, zatoshis: u64)
    ensures
        zatoshis_in(value) == Some(zatoshis) <==> value is Some && value->0@ == zatoshis,
{
}

/// There is a sum exactly when one of the numbers is known; taking a known one away
/// again leaves the other, or nothing where the other is unknown.
pub proof fn sum_loses_nothing(left: Option<u64>, right: Option<u64>)
    ensures
        sum_of(left, right) is None <==> left is None && right is None,
        left is Some ==> sum_of(left, right)->0 - left->0 == (if right is Some {
            right->0 as int
        } else {
            0
        }),
        right is Some ==> sum_of(left, right)->0 - right->0 == (if left is Some {
            left->0 as int
        } else {
            0
        }),
{
}

} // verus!
