use zingo_http::address::{unified_address, AddressEntry};
use zingo_http::amount::{sum_options, zatoshis_to_u64, Amount};
use zingo_http::auth::{auth, API_KEY_HEADER};
use zingo_http::balance::{balance, AccountBalance, PoolBalance};
use zingo_http::error::StatusCode;
use zingo_http::keys::{can_spend, KeyStore, ACCOUNT};
use zingo_http::outside::MAX_MONEY;
use zingo_http::routes::{Endpoint, Method};
use zingo_http::settings::ChainType;
use zingo_http::status::{block_height_to_u64, health, sync_height, SyncMode};
use zingo_http::sync::{SyncAction, SyncEvent, SyncMonitor};
use zingo_http::transactions::{
    transaction_item_from_summary, transactions, NoteSummary, TransactionSummary,
};

#[test]
fn no_key_configured_lets_everyone_in() {
    assert_eq!(auth(None, &None), Ok(()));
    assert_eq!(auth(Some(b"anything"), &None), Ok(()));
    assert_eq!(auth(Some(&[0xff]), &None), Ok(()));
}

#[test]
fn wrong_or_missing_key_is_unauthorized() {
    let key = Some("secret".to_string());
    assert_eq!(auth(None, &key), Err(StatusCode::Unauthorized));
    assert_eq!(auth(Some(b"Secret"), &key), Err(StatusCode::Unauthorized));
    assert_eq!(auth(Some(b"secret "), &key), Err(StatusCode::Unauthorized));
    assert_eq!(auth(Some(b"secre"), &key), Err(StatusCode::Unauthorized));
    assert_eq!(auth(Some(b""), &key), Err(StatusCode::Unauthorized));
    assert_eq!(auth(Some(b"secret"), &key), Ok(()));
    assert_eq!(API_KEY_HEADER, "x-api-key");
}

#[test]
fn key_header_has_to_be_text() {
    assert_eq!(auth(Some(b"a\tb"), &Some("a\tb".to_string())), Ok(()));
    for key in ["caf\u{e9}", "a\u{7f}", "a\u{1}"] {
        let header = auth(Some(key.as_bytes()), &Some(key.to_string()));
        assert_eq!(header, Err(StatusCode::Unauthorized));
    }
}

#[test]
fn statuses_have_their_numbers() {
    assert_eq!(StatusCode::BadRequest.as_u16(), 400);
    assert_eq!(StatusCode::Unauthorized.as_u16(), 401);
    assert_eq!(StatusCode::Forbidden.as_u16(), 403);
    assert_eq!(StatusCode::InternalServerError.as_u16(), 500);
}

#[test]
fn endpoints_are_where_they_should_be() {
    let mut found = Vec::new();
    for endpoint in Endpoint::all() {
        let posted = endpoint.method() == Method::Post;
        assert_eq!(posted, endpoint == Endpoint::SendShieldedTx);
        found.push(endpoint.path());
    }
    assert_eq!(
        found,
        ["/health", "/address", "/balance", "/sync-height", "/transactions", "/send-shielded-tx"]
    );
}

#[test]
fn sums_of_optional_amounts() {
    assert_eq!(sum_options(Some(2), Some(3)), Some(5));
    assert_eq!(sum_options(Some(2), None), Some(2));
    assert_eq!(sum_options(None, Some(3)), Some(3));
    assert_eq!(sum_options(None, None), None);
    assert_eq!(sum_options(Some(u64::MAX), Some(0)), Some(u64::MAX));
    assert_eq!(sum_options(Some(3), Some(2)), sum_options(Some(2), Some(3)));
}

#[test]
fn amounts_stop_at_all_the_money() {
    assert_eq!(MAX_MONEY, 21_000_000 * 100_000_000);
    assert_eq!(zatoshis_to_u64(Amount::from_u64(MAX_MONEY)), Some(MAX_MONEY));
    assert_eq!(zatoshis_to_u64(Amount::from_u64(0)), Some(0));
    assert!(Amount::from_u64(MAX_MONEY + 1).is_none());
    assert!(Amount::from_u64(u64::MAX).is_none());
    assert_eq!(zatoshis_to_u64(None), None);
}

fn balances(orchard: Option<u64>, sapling: Option<u64>) -> AccountBalance {
    AccountBalance {
        confirmed_orchard_balance: Amount::from_u64(1),
        unconfirmed_orchard_balance: Amount::from_u64(2),
        total_orchard_balance: orchard.and_then(Amount::from_u64),
        confirmed_sapling_balance: Amount::from_u64(4),
        unconfirmed_sapling_balance: None,
        total_sapling_balance: sapling.and_then(Amount::from_u64),
        confirmed_transparent_balance: Amount::from_u64(7),
        unconfirmed_transparent_balance: Amount::from_u64(8),
        total_transparent_balance: Amount::from_u64(15),
    }
}

#[test]
fn balance_reports_pools_and_shielded_total() {
    let response = balance(Some(balances(Some(3), Some(4)))).unwrap();
    let pool = |confirmed, unconfirmed, total| PoolBalance { confirmed, unconfirmed, total };
    assert_eq!(response.orchard, pool(Some(1), Some(2), Some(3)));
    assert_eq!(response.sapling, pool(Some(4), None, Some(4)));
    assert_eq!(response.transparent, pool(Some(7), Some(8), Some(15)));
    assert_eq!(response.shielded_total, Some(7));
}

#[test]
fn shielded_total_needs_one_known_pool() {
    assert_eq!(balance(Some(balances(Some(3), None))).unwrap().shielded_total, Some(3));
    assert_eq!(balance(Some(balances(None, Some(4)))).unwrap().shielded_total, Some(4));
    assert_eq!(balance(Some(balances(None, None))).unwrap().shielded_total, None);
    let all = balance(Some(balances(Some(MAX_MONEY), Some(MAX_MONEY)))).unwrap();
    assert_eq!(all.shielded_total, Some(2 * MAX_MONEY));
}

#[test]
fn unknown_balances_are_an_internal_error() {
    assert_eq!(balance(None).unwrap_err(), StatusCode::InternalServerError);
}

fn entries(listed: &[(u32, Option<&str>)]) -> Vec<AddressEntry> {
    listed
        .iter()
        .map(|(account, encoded)| AddressEntry {
            account: *account,
            encoded: encoded.map(str::to_string),
        })
        .collect()
}

#[test]
fn first_encoded_address_is_reported() {
    let listed = entries(&[(0, None), (0, Some("u1a")), (0, Some("u1b"))]);
    assert_eq!(unified_address(&listed).unwrap().unified_address, "u1a");
    let none = entries(&[(0, None)]);
    assert_eq!(unified_address(&none).unwrap_err(), StatusCode::InternalServerError);
    assert_eq!(unified_address(&vec![]).unwrap_err(), StatusCode::InternalServerError);
}

#[test]
fn addresses_of_other_accounts_are_not_reported() {
    let listed = entries(&[(1, Some("u1one")), (0, Some("u1zero")), (2, Some("u1two"))]);
    assert_eq!(unified_address(&listed).unwrap().unified_address, "u1zero");
    let others = entries(&[(1, Some("u1one")), (0, None), (2, Some("u1two"))]);
    assert_eq!(unified_address(&others).unwrap_err(), StatusCode::InternalServerError);
}

#[test]
fn health_reports_what_it_is_told() {
    let response = health(
        ChainType::Mainnet,
        "https://lwd.example/".to_string(),
        SyncMode::Running,
        Some(u32::MAX),
        None,
        Some("timeout".to_string()),
    );
    assert_eq!(response.status, "ok");
    assert_eq!(response.network, "Mainnet");
    assert_eq!(response.lightwalletd, "https://lwd.example/");
    assert_eq!(response.sync_mode, "Running");
    assert_eq!(response.wallet_height, Some(4294967295));
    assert_eq!(response.fully_scanned_height, None);
    assert_eq!(response.last_sync_error, Some("timeout".to_string()));
    assert_eq!(ChainType::Testnet.name(), "Testnet");
}

#[test]
fn sync_height_reports_heights() {
    let response = sync_height(Some(20), Some(10), SyncMode::NotRunning);
    assert_eq!(response.wallet_height, Some(20));
    assert_eq!(response.fully_scanned_height, Some(10));
    assert_eq!(response.latest_height, Some(20));
    assert_eq!(response.sync_mode, "NotRunning");
    assert_eq!(sync_height(None, None, SyncMode::Paused).latest_height, None);
    assert_eq!(SyncMode::Paused.name(), "Paused");
    assert_eq!(SyncMode::Shutdown.name(), "Shutdown");
    assert_eq!(block_height_to_u64(7), 7);
}

fn notes(memos: &[Option<&str>]) -> Vec<NoteSummary> {
    memos.iter().map(|memo| NoteSummary { memo: memo.map(str::to_string) }).collect()
}

fn summary(txid: &str, blockheight: u32) -> TransactionSummary {
    TransactionSummary {
        txid: txid.to_string(),
        status: "confirmed".to_string(),
        kind: "sent".to_string(),
        value: 5,
        fee: Some(1),
        blockheight,
        datetime: 99,
        orchard_notes: notes(&[Some("o1"), None, Some("o2")]),
        sapling_notes: notes(&[None, Some("s1")]),
        outgoing_orchard_notes: notes(&[Some("oo1"), Some("o1")]),
        outgoing_sapling_notes: notes(&[Some("os1")]),
    }
}

#[test]
fn item_lists_memos_in_order() {
    let item = transaction_item_from_summary(&summary("t", 12));
    assert_eq!(item.tx_id, "t");
    assert_eq!(item.status, "confirmed");
    assert_eq!(item.kind, "sent");
    assert_eq!(item.value, 5);
    assert_eq!(item.fee, Some(1));
    assert_eq!(item.block_height, 12);
    assert_eq!(item.datetime, 99);
    assert_eq!(item.memos, ["o1", "o2", "s1", "oo1", "o1", "os1"]);
}

#[test]
fn three_most_recent_transactions_are_reported() {
    let ids = |n: u32| -> Vec<String> {
        let summaries = (0..n).map(|i| summary(&format!("t{i}"), 100 - i)).collect();
        let response = transactions(Some(summaries)).unwrap();
        response.transactions.into_iter().map(|item| item.tx_id).collect()
    };
    assert_eq!(ids(5), ["t0", "t1", "t2"]);
    assert_eq!(ids(3), ["t0", "t1", "t2"]);
    assert_eq!(ids(2), ["t0", "t1"]);
    assert!(ids(0).is_empty());
    assert_eq!(transactions(None).unwrap_err(), StatusCode::InternalServerError);
}

#[test]
fn only_spending_keys_spend() {
    assert!(can_spend(Some(KeyStore::Spend)));
    assert!(!can_spend(Some(KeyStore::View)));
    assert!(!can_spend(Some(KeyStore::Empty)));
    assert!(!can_spend(None));
    assert_eq!(ACCOUNT, 0);
}

#[test]
fn last_sync_outcome_is_remembered() {
    let mut monitor = SyncMonitor::new();
    assert_eq!(monitor.last_error(), None);
    assert_eq!(monitor.step(SyncEvent::Tick(Some(KeyStore::Spend))), SyncAction::Sync);
    assert_eq!(monitor.step(SyncEvent::Finished(Err("down".to_string()))), SyncAction::Wait);
    assert_eq!(monitor.last_error(), Some("down".to_string()));
    // A round that is left out forgets nothing.
    assert_eq!(monitor.step(SyncEvent::Tick(Some(KeyStore::View))), SyncAction::Skip);
    assert_eq!(monitor.step(SyncEvent::Tick(None)), SyncAction::Skip);
    assert_eq!(monitor.last_error(), Some("down".to_string()));
    assert_eq!(monitor.step(SyncEvent::Finished(Ok(()))), SyncAction::Wait);
    assert_eq!(monitor.last_error(), None);
}
