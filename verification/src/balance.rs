//! What `GET /balance` reports.

use vstd::prelude::*;

use crate::amount::{as_int, sum_of, sum_options, zatoshis_in, zatoshis_to_u64, Amount};
use crate::error::StatusCode;
use crate::outside::MAX_MONEY;

verus! {

/// The balances of an account, pool by pool. A balance that the wallet cannot
/// tell is absent.
#[derive(Clone, Copy, Debug)]
pub struct AccountBalance {
    pub confirmed_orchard_balance: Option<Amount>,
    pub unconfirmed_orchard_balance: Option<Amount>,
    pub total_orchard_balance: Option<Amount>,
    pub confirmed_sapling_balance: Option<Amount>,
    pub unconfirmed_sapling_balance: Option<Amount>,
    pub total_sapling_balance: Option<Amount>,
    pub confirmed_transparent_balance: Option<Amount>,
    pub unconfirmed_transparent_balance: Option<Amount>,
    pub total_transparent_balance: Option<Amount>,
}

/// The balances of one pool, in zatoshis.
#[derive(Clone, Copy, Debug, PartialEq, Eq)]
pub struct PoolBalance {
    pub confirmed: Option<u64>,
    pub unconfirmed: Option<u64>,
    pub total: Option<u64>,
}

/// The answer to `GET /balance`.
#[derive(Clone, Copy, Debug, PartialEq, Eq)]
pub struct BalanceResponse {
    pub orchard: PoolBalance,
    pub sapling: PoolBalance,
    pub transparent: PoolBalance,
    pub shielded_total: Option<u64>,
}

/// The pool balances that an account's balances amount to.
pub open spec fn pool_of(
    confirmed: Option<Amount>,
    unconfirmed: Option<Amount>,
    total: Option<Amount>,
) -> PoolBalance {
    PoolBalance {
        confirmed: zatoshis_in(confirmed),
        unconfirmed: zatoshis_in(unconfirmed),
        total: zatoshis_in(total),
    }
}

/// Whether `response` reports `balances`: each pool as it is, and the two
/// shielded pools together.
pub open spec fn reports(response: BalanceResponse, balances: AccountBalance) -> bool {
    &&& response.orchard == pool_of(
        balances.confirmed_orchard_balance,
        balances.unconfirmed_orchard_balance,
        balances.total_orchard_balance,
    )
    &&& response.sapling == pool_of(
        balances.confirmed_sapling_balance,
        balances.unconfirmed_sapling_balance,
        balances.total_sapling_balance,
    )
    &&& response.transparent == pool_of(
        balances.confirmed_transparent_balance,
        balances.unconfirmed_transparent_balance,
        balances.total_transparent_balance,
    )
    &&& as_int(response.shielded_total) == sum_of(response.orchard.total, response.sapling.total)
}

/// Lays out the balances of one pool.
fn pool_balance(
    confirmed: Option<Amount>,
    unconfirmed: Option<Amount>,
    total: Option<Amount>,
) -> (pool: PoolBalance)
    ensures
        pool == pool_of(confirmed, unconfirmed, total),
        pool.confirmed is Some <==> confirmed is Some,
        confirmed is Some ==> pool.confirmed->0 == confirmed->0@,
        pool.unconfirmed is Some <==> unconfirmed is Some,
        unconfirmed is Some ==> pool.unconfirmed->0 == unconfirmed->0@,
        pool.total is Some <==> total is Some,
        total is Some ==> pool.total->0 == total->0@,
        pool.total is Some ==> pool.total->0 <= MAX_MONEY,
{
    PoolBalance {
        confirmed: zatoshis_to_u64(confirmed),
        unconfirmed: zatoshis_to_u64(unconfirmed),
        total: zatoshis_to_u64(total),
    }
}

/// Answers `GET /balance` from the balances that the wallet gave, or from its
/// failure to give any.
pub fn balance(balances: Option<AccountBalance>) -> (answer: Result<BalanceResponse, StatusCode>)
    ensures
        match (balances, answer) {
            (Some(b), Ok(response)) => reports(response, b),
            (None, Err(status)) => status == StatusCode::InternalServerError,
            _ => false,
        },
        match (balances, answer) {
            (Some(b), Ok(response)) => {
                &&& response.orchard.confirmed is Some <==> b.confirmed_orchard_balance is Some
                &&& b.confirmed_orchard_balance is Some ==> response.orchard.confirmed->0
                    == b.confirmed_orchard_balance->0@
                &&& response.orchard.unconfirmed is Some <==> b.unconfirmed_orchard_balance is Some
                &&& b.unconfirmed_orchard_balance is Some ==> response.orchard.unconfirmed->0
                    == b.unconfirmed_orchard_balance->0@
                &&& response.orchard.total is Some <==> b.total_orchard_balance is Some
                &&& b.total_orchard_balance is Some ==> response.orchard.total->0
                    == b.total_orchard_balance->0@
                &&& response.sapling.confirmed is Some <==> b.confirmed_sapling_balance is Some
                &&& b.confirmed_sapling_balance is Some ==> response.sapling.confirmed->0
                    == b.confirmed_sapling_balance->0@
                &&& response.sapling.unconfirmed is Some <==> b.unconfirmed_sapling_balance is Some
                &&& b.unconfirmed_sapling_balance is Some ==> response.sapling.unconfirmed->0
                    == b.unconfirmed_sapling_balance->0@
                &&& response.sapling.total is Some <==> b.total_sapling_balance is Some
                &&& b.total_sapling_balance is Some ==> response.sapling.total->0
                    == b.total_sapling_balance->0@
                &&& response.transparent.confirmed is Some <==> b.confirmed_transparent_balance is Some
                &&& b.confirmed_transparent_balance is Some ==> response.transparent.confirmed->0
                    == b.confirmed_transparent_balance->0@
                &&& response.transparent.unconfirmed is Some <==> b.unconfirmed_transparent_balance is Some
                &&& b.unconfirmed_transparent_balance is Some ==> response.transparent.unconfirmed->0
                    == b.unconfirmed_transparent_balance->0@
                &&& response.transparent.total is Some <==> b.total_transparent_balance is Some
                &&& b.total_transparent_balance is Some ==> response.transparent.total->0
                    == b.total_transparent_balance->0@
                &&& response.shielded_total is Some <==> b.total_orchard_balance is Some
                    || b.total_sapling_balance is Some
                &&& response.shielded_total is Some ==> response.shielded_total->0 == (
                if b.total_orchard_balance is Some {
                    b.total_orchard_balance->0@ as int
                } else {
                    0
                }) + (if b.total_sapling_balance is Some {
                    b.total_sapling_balance->0@ as int
                } else {
                    0
                })
            },
            (None, Err(status)) => status == StatusCode::InternalServerError,
            _ => false,
        },
{
    let balances = match balances {
        Some(balances) => balances,
        None => {
            return Err(StatusCode::InternalServerError);
        },
    };
    let orchard = pool_balance(
        balances.confirmed_orchard_balance,
        balances.unconfirmed_orchard_balance,
        balances.total_orchard_balance,
    );
    let sapling = pool_balance(
        balances.confirmed_sapling_balance,
        balances.unconfirmed_sapling_balance,
        balances.total_sapling_balance,
    );
    let transparent = pool_balance(
        balances.confirmed_transparent_balance,
        balances.unconfirmed_transparent_balance,
        balances.total_transparent_balance,
    );
    let shielded_total = sum_options(orchard.total, sapling.total);
    Ok(BalanceResponse { orchard, sapling, transparent, shielded_total })
}

/// Each balance that is reported of a pool is the wallet's own number for it: it is
/// there exactly when the wallet gave it, and does not depend on the others.
pub proof fn balances_are_the_wallets_own(response: BalanceResponse, balances: AccountBalance)
    requires
        reports(response, balances),
    ensures
        response.orchard.confirmed is Some <==> balances.confirmed_orchard_balance is Some,
        balances.confirmed_orchard_balance is Some ==> response.orchard.confirmed->0
            == balances.confirmed_orchard_balance->0@,
        response.orchard.unconfirmed is Some <==> balances.unconfirmed_orchard_balance is Some,
        balances.unconfirmed_orchard_balance is Some ==> response.orchard.unconfirmed->0
            == balances.unconfirmed_orchard_balance->0@,
        response.orchard.total is Some <==> balances.total_orchard_balance is Some,
        balances.total_orchard_balance is Some ==> response.orchard.total->0
            == balances.total_orchard_balance->0@,
        response.sapling.confirmed is Some <==> balances.confirmed_sapling_balance is Some,
        balances.confirmed_sapling_balance is Some ==> response.sapling.confirmed->0
            == balances.confirmed_sapling_balance->0@,
        response.sapling.unconfirmed is Some <==> balances.unconfirmed_sapling_balance is Some,
        balances.unconfirmed_sapling_balance is Some ==> response.sapling.unconfirmed->0
            == balances.unconfirmed_sapling_balance->0@,
        response.sapling.total is Some <==> balances.total_sapling_balance is Some,
        balances.total_sapling_balance is Some ==> response.sapling.total->0
            == balances.total_sapling_balance->0@,
        response.transparent.confirmed is Some <==> balances.confirmed_transparent_balance is Some,
        balances.confirmed_transparent_balance is Some ==> response.transparent.confirmed->0
            == balances.confirmed_transparent_balance->0@,
        response.transparent.unconfirmed is Some <==> balances.unconfirmed_transparent_balance is Some,
        balances.unconfirmed_transparent_balance is Some ==> response.transparent.unconfirmed->0
            == balances.unconfirmed_transparent_balance->0@,
        response.transparent.total is Some <==> balances.total_transparent_balance is Some,
        balances.total_transparent_balance is Some ==> response.transparent.total->0
            == balances.total_transparent_balance->0@,
{
}

/// The shielded total is what the Orchard and the Sapling pool hold together. A pool
/// whose total is unknown adds nothing, and the transparent pool never counts.
pub proof fn shielded_total_is_of_shielded_pools(response: BalanceResponse, balances: AccountBalance)
    requires
        reports(response, balances),
    ensures
        response.shielded_total is Some <==> balances.total_orchard_balance is Some
            || balances.total_sapling_balance is Some,
        response.shielded_total is Some ==> response.shielded_total->0 == (
        if balances.total_orchard_balance is Some {
            balances.total_orchard_balance->0@ as int
        } else {
            0
        }) + (if balances.total_sapling_balance is Some {
            balances.total_sapling_balance->0@ as int
        } else {
            0
        }),
{
}

/// Wallets that agree on one balance are reported alike in it, however else they
/// differ.
pub proof fn balances_do_not_mix(
    one: BalanceResponse,
    of_one: AccountBalance,
    other: BalanceResponse,
    of_other: AccountBalance,
)
    requires
        reports(one, of_one),
        reports(other, of_other),
    ensures
        of_one.confirmed_orchard_balance == of_other.confirmed_orchard_balance
            ==> one.orchard.confirmed == other.orchard.confirmed,
        of_one.unconfirmed_orchard_balance == of_other.unconfirmed_orchard_balance
            ==> one.orchard.unconfirmed == other.orchard.unconfirmed,
        of_one.total_orchard_balance == of_other.total_orchard_balance
            ==> one.orchard.total == other.orchard.total,
        of_one.confirmed_sapling_balance == of_other.confirmed_sapling_balance
            ==> one.sapling.confirmed == other.sapling.confirmed,
        of_one.unconfirmed_sapling_balance == of_other.unconfirmed_sapling_balance
            ==> one.sapling.unconfirmed == other.sapling.unconfirmed,
        of_one.total_sapling_balance == of_other.total_sapling_balance
            ==> one.sapling.total == other.sapling.total,
        of_one.confirmed_transparent_balance == of_other.confirmed_transparent_balance
            ==> one.transparent.confirmed == other.transparent.confirmed,
        of_one.unconfirmed_transparent_balance == of_other.unconfirmed_transparent_balance
            ==> one.transparent.unconfirmed == other.transparent.unconfirmed,
        of_one.total_transparent_balance == of_other.total_transparent_balance
            ==> one.transparent.total == other.transparent.total,
{
}

/// What the wallet tells can be reported in one way only.
pub proof fn one_report(a: BalanceResponse, b: BalanceResponse, balances: AccountBalance)
    requires
        reports(a, balances),
        reports(b, balances),
    ensures
        a == b,
{
}

} // verus!
