//! The endpoints and where they are found.

use vstd::prelude::*;

verus! {

/// What the sidecar can be asked.
#[derive(Clone, Copy, Debug, PartialEq, Eq, Structural)]
pub enum Endpoint {
    Health,
    Address,
    Balance,
    SyncHeight,
    Transactions,
    SendShieldedTx,
}

/// The methods that endpoints answer to.
#[derive(Clone, Copy, Debug, PartialEq, Eq, Structural)]
pub enum Method {
    Get,
    Post,
}

impl Endpoint {
    /// The path of an endpoint.
    pub open spec fn located(self) -> Seq<char> {
        match self {
            Endpoint::Health => "/health"@,
            Endpoint::Address => "/address"@,
            Endpoint::Balance => "/balance"@,
            Endpoint::SyncHeight => "/sync-height"@,
            Endpoint::Transactions => "/transactions"@,
            Endpoint::SendShieldedTx => "/send-shielded-tx"@,
        }
    }

    /// The path of the endpoint.
    pub fn path(&self) -> (path: &'static str)
        ensures
            path@ == self.located(),
            *self == Endpoint::Health ==> path@ == "/health"@,
            *self == Endpoint::Address ==> path@ == "/address"@,
            *self == Endpoint::Balance ==> path@ == "/balance"@,
            *self == Endpoint::SyncHeight ==> path@ == "/sync-height"@,
            *self == Endpoint::Transactions ==> path@ == "/transactions"@,
            *self == Endpoint::SendShieldedTx ==> path@ == "/send-shielded-tx"@,
    {
        match self {
            Endpoint::Health => "/health",
            Endpoint::Address => "/address",
            Endpoint::Balance => "/balance",
            Endpoint::SyncHeight => "/sync-height",
            Endpoint::Transactions => "/transactions",
            Endpoint::SendShieldedTx => "/send-shielded-tx",
        }
    }

    /// The method that the endpoint answers to: sending is posted, everything
    /// else is only looked at.
    pub fn method(&self) -> (method: Method)
        ensures
            method == (if *self == Endpoint::SendShieldedTx {
                Method::Post
            } else {
                Method::Get
            }),
    {
        match self {
            Endpoint::SendShieldedTx => Method::Post,
            _ => Method::Get,
        }
    }

    /// All the endpoints.
    pub fn all() -> (endpoints: Vec<Endpoint>)
        ensures
            endpoints@.no_duplicates(),
            forall|endpoint: Endpoint| endpoints@.contains(endpoint),
    {
        let endpoints = vec![
            Endpoint::Health,
            Endpoint::Address,
            Endpoint::Balance,
            Endpoint::SyncHeight,
            Endpoint::Transactions,
            Endpoint::SendShieldedTx,
        ];
        assert forall|endpoint: Endpoint| endpoints@.contains(endpoint) by {
            let i: int = match endpoint {
                Endpoint::Health => 0,
                Endpoint::Address => 1,
                Endpoint::Balance => 2,
                Endpoint::SyncHeight => 3,
                Endpoint::Transactions => 4,
                Endpoint::SendShieldedTx => 5,
            };
            assert(endpoints@[i] == endpoint);
        }
        endpoints
    }
}

/// No two endpoints share a path.
pub proof fn paths_differ(a: Endpoint, b: Endpoint)
    requires
        a != b,
    ensures
        a.located() != b.located(),
{
    reveal_strlit("/health");
    reveal_strlit("/address");
    reveal_strlit("/balance");
    reveal_strlit("/sync-height");
    reveal_strlit("/transactions");
    reveal_strlit("/send-shielded-tx");
    assert("/health"@.len() == 7);
    assert("/address"@.len() == 8 && "/address"@[1] == 'a');
    assert("/balance"@.len() == 8 && "/balance"@[1] == 'b');
    assert("/sync-height"@.len() == 12);
    assert("/transactions"@.len() == 13);
    assert("/send-shielded-tx"@.len() == 17);
}

/// Each endpoint is found at its path.
pub proof fn endpoints_are_found(endpoint: Endpoint)
    ensures
        endpoint == Endpoint::Health <==> endpoint.located() == "/health"@,
        endpoint == Endpoint::Address <==> endpoint.located() == "/address"@,
        endpoint == Endpoint::Balance <==> endpoint.located() == "/balance"@,
        endpoint == Endpoint::SyncHeight <==> endpoint.located() == "/sync-height"@,
        endpoint == Endpoint::Transactions <==> endpoint.located() == "/transactions"@,
        endpoint == Endpoint::SendShieldedTx <==> endpoint.located() == "/send-shielded-tx"@,
{
    if endpoint != Endpoint::Health {
        paths_differ(endpoint, Endpoint::Health);
    }
    if endpoint != Endpoint::Address {
        paths_differ(endpoint, Endpoint::Address);
    }
    if endpoint != Endpoint::Balance {
        paths_differ(endpoint, Endpoint::Balance);
    }
    if endpoint != Endpoint::SyncHeight {
        paths_differ(endpoint, Endpoint::SyncHeight);
    }
    if endpoint != Endpoint::Transactions {
        paths_differ(endpoint, Endpoint::Transactions);
    }
    if endpoint != Endpoint::SendShieldedTx {
        paths_differ(endpoint, Endpoint::SendShieldedTx);
    }
}

} // verus!
