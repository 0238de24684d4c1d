//! What `GET /address` reports.

use vstd::prelude::*;

use crate::choice::{first_present, first_present_is_first};
use crate::error::StatusCode;
use crate::keys::ACCOUNT;

verus! {

/// A unified address as the wallet lists it.
#[derive(Debug)]
pub struct AddressEntry {
    /// The account that the address belongs to.
    pub account: u32,
    /// The encoding of the address, where the wallet gave one as text.
    pub encoded: Option<String>,
}

/// What `AddressEntry` holds.
pub struct EntryModel {
    pub account: u32,
    pub encoded: Option<Seq<char>>,
}

impl DeepView for AddressEntry {
    type V = EntryModel;

    open spec fn deep_view(&self) -> EntryModel {
        EntryModel { account: self.account, encoded: self.encoded.deep_view() }
    }
}

/// The answer to `GET /address`.
#[derive(Debug)]
pub struct AddressResponse {
    pub unified_address: String,
}

/// The encoding that an entry gives of an address of `account`, if it gives one.
pub open spec fn given(entry: EntryModel, account: u32) -> Option<Seq<char>> {
    if entry.account == account {
        entry.encoded
    } else {
        None
    }
}

/// The first encoding that one of `entries` gives of an address of `account`.
pub open spec fn first_of(entries: Seq<EntryModel>, account: u32) -> Option<Seq<char>> {
    first_present(entries.map_values(|entry: EntryModel| given(entry, account)))
}

/// Answers `GET /address` from the addresses that the wallet lists, with one of the
/// account that is served. The addresses of other accounts do not matter, wherever
/// they stand.
pub fn unified_address(entries: &Vec<AddressEntry>) -> (answer: Result<AddressResponse, StatusCode>)
    ensures
        match answer {
            Ok(response) => first_of(entries.deep_view(), ACCOUNT) == Some(
                response.unified_address@,
            ),
            Err(status) => status == StatusCode::InternalServerError && first_of(
                entries.deep_view(),
                ACCOUNT,
            ) is None,
        },
        match answer {
            Ok(response) => exists|i: int|
                #![trigger entries@[i]]
                0 <= i < entries.len() && entries@[i].account == 0
                    && entries@[i].encoded.deep_view() == Some(response.unified_address@) && (
                forall|j: int|
                    #![trigger entries@[j]]
                    0 <= j < i ==> entries@[j].account != 0 || entries@[j].encoded is None),
            Err(status) => status == StatusCode::InternalServerError && (forall|i: int|
                #![trigger entries@[i]]
                0 <= i < entries.len() ==> entries@[i].account != 0 || entries@[i].encoded is None),
        },
{
    let ghost all = entries.deep_view();
    for i in 0..entries.len()
        invariant
            all == entries.deep_view(),
            forall|j: int| 0 <= j < i ==> given(#[trigger] all[j], ACCOUNT) is None,
            forall|j: int|
                #![trigger entries@[j]]
                0 <= j < i ==> entries@[j].account != 0 || entries@[j].encoded is None,
    {
        assert(all[i as int] == entries@[i as int].deep_view());
        if entries[i].account == ACCOUNT {
            if let Some(address) = &entries[i].encoded {
                proof {
                    first_of_is_first(all, ACCOUNT);
                }
                return Ok(AddressResponse { unified_address: address.clone() });
            }
        }
    }
    proof {
        first_of_is_first(all, ACCOUNT);
    }
    Err(StatusCode::InternalServerError)
}

/// The address that is reported belongs to the account, and no entry before it gives
/// one that does. There is none to report exactly when no entry gives one.
pub proof fn first_of_is_first(entries: Seq<EntryModel>, account: u32)
    ensures
        first_of(entries, account) is None <==> (forall|i: int|
            0 <= i < entries.len() ==> given(#[trigger] entries[i], account) is None),
        first_of(entries, account) is Some ==> (exists|i: int|
            0 <= i < entries.len() && given(#[trigger] entries[i], account) == first_of(
                entries,
                account,
            ) && (forall|j: int| 0 <= j < i ==> given(#[trigger] entries[j], account) is None)),
{
    let options = entries.map_values(|entry: EntryModel| given(entry, account));
    first_present_is_first(options);
    assert forall|i: int| 0 <= i < entries.len() implies given(
        #[trigger] entries[i],
        account,
    ) == options[i] by {
    }
}

/// An address is reported exactly when an entry of the account gives it and no entry of
/// the account before that gives one. Entries of other accounts do not matter.
pub proof fn reported_address_is_of_account(
    entries: Seq<EntryModel>,
    account: u32,
    address: Seq<char>,
)
    ensures
        first_of(entries, account) == Some(address) <==> (exists|i: int|
            #![trigger entries[i]]
            0 <= i < entries.len() && entries[i].account == account && entries[i].encoded == Some(
                address,
            ) && (forall|j: int|
                #![trigger entries[j]]
                0 <= j < i ==> entries[j].account != account || entries[j].encoded is None)),
        first_of(entries, account) is None <==> (forall|i: int|
            #![trigger entries[i]]
            0 <= i < entries.len() ==> entries[i].account != account || entries[i].encoded is None),
{
    first_of_is_first(entries, account);
}

/// Leaving out an entry of another account, or one without an encoding, changes nothing.
pub proof fn other_entries_do_not_matter(entries: Seq<EntryModel>, account: u32, n: int)
    requires
        0 <= n < entries.len(),
        entries[n].account != account || entries[n].encoded is None,
    ensures
        first_of(entries.remove(n), account) == first_of(entries, account),
{
    let rest = entries.remove(n);
    first_of_is_first(entries, account);
    first_of_is_first(rest, account);
    assert forall|i: int| 0 <= i < rest.len() implies #[trigger] rest[i] == entries[if i < n {
        i
    } else {
        i + 1
    }] by {
    }
    assert forall|i: int| 0 <= i < entries.len() && i != n implies #[trigger] entries[i]
        == rest[if i < n {
        i
    } else {
        i - 1
    }] by {
    }
}

} // verus!
