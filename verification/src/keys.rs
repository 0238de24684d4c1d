//! What the wallet's keys allow.

use vstd::prelude::*;

verus! {

/// The account that the sidecar serves: payments go out from it, and its address and
/// balances are reported.
pub const ACCOUNT: u32 = 0;

/// The keys that an account of the wallet holds.
#[derive(Clone, Copy, Debug, PartialEq, Eq, Structural)]
pub enum KeyStore {
    /// A spending key.
    Spend,
    /// A viewing key only.
    View,
    /// No key.
    Empty,
}

/// Whether an account can spend; an account that the wallet lacks cannot.
pub open spec fn spends(account: Option<KeyStore>) -> bool {
    account == Some(KeyStore::Spend)
}

/// Tells whether an account can spend.
pub fn can_spend(account: Option<KeyStore>) -> (r: bool)
    ensures
        r == spends(account),
        r == (account == Some(KeyStore::Spend)),
{
    matches!(account, Some(KeyStore::Spend))
}

/// An account spends with a spending key and with nothing else. The account that is
/// served is the first.
pub proof fn only_spending_keys_spend(account: Option<KeyStore>)
    ensures
        spends(account) <==> account is Some && account->0 is Spend,
        ACCOUNT == 0,
{
}

} // verus!
