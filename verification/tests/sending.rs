use zingo_http::error::StatusCode;
use zingo_http::keys::KeyStore;
use zingo_http::outside::MAX_MONEY;
use zingo_http::send::{
    build_receiver, has_overrides, prepare_receiver, SendAction, SendEvent, SendFlow,
    SendShieldedTxRequest,
};

const ADDRESS: &str =
    "zs1qqqqqqqqqqqqqqqqqqqqqqqqqqqqqqqqqqqqqqqqqqqqqqqqqqqqqqqqqqqqqqqqqqqqqpq6d8g";

fn request(to_address: &str, amount_zat: u64, memo: Option<&str>) -> SendShieldedTxRequest {
    SendShieldedTxRequest {
        to_address: to_address.to_string(),
        amount_zat,
        memo: memo.map(str::to_string),
        spending_key: None,
        mnemonic: None,
        fee: None,
    }
}

fn refused(action: SendAction) -> StatusCode {
    match action {
        SendAction::Reply(Err(status)) => status,
        other => panic!("{other:?}"),
    }
}

#[test]
fn receiver_holds_address_amount_and_padded_memo() {
    let receiver = prepare_receiver(&request(&format!(" {ADDRESS}\n"), 10000, Some("h\u{e9}"))).unwrap();
    assert_eq!(receiver.recipient_address, ADDRESS);
    assert_eq!(receiver.amount.into_u64(), 10000);
    let memo = receiver.memo.unwrap();
    assert_eq!(memo.len(), 512);
    assert_eq!(&memo[..3], [0x68, 0xc3, 0xa9]);
    assert!(memo[3..].iter().all(|b| *b == 0));
}

#[test]
fn receiver_without_memo_has_none() {
    assert!(prepare_receiver(&request(ADDRESS, 0, None)).unwrap().memo.is_none());
    let empty = prepare_receiver(&request(ADDRESS, 0, Some(""))).unwrap().memo.unwrap();
    assert_eq!(empty, vec![0; 512]);
}

#[test]
fn bad_amount_address_or_memo_is_a_bad_request() {
    let bad = |r: SendShieldedTxRequest| prepare_receiver(&r).unwrap_err();
    assert_eq!(bad(request(ADDRESS, MAX_MONEY + 1, None)), StatusCode::BadRequest);
    assert_eq!(bad(request("u123", 1, None)), StatusCode::BadRequest);
    assert_eq!(bad(request("", 1, None)), StatusCode::BadRequest);
    let long = "x".repeat(513);
    assert_eq!(bad(request(ADDRESS, 1, Some(&long))), StatusCode::BadRequest);
    let wide = "\u{e9}".repeat(257);
    assert_eq!(bad(request(ADDRESS, 1, Some(&wide))), StatusCode::BadRequest);
    assert!(prepare_receiver(&request(ADDRESS, MAX_MONEY, Some(&long[1..]))).is_ok());
}

#[test]
fn receiver_is_built_from_the_address_it_is_given() {
    let r = request("anything", 1, None);
    assert_eq!(build_receiver(&r, Some("a".to_string())).unwrap().recipient_address, "a");
    assert_eq!(build_receiver(&r, None).unwrap_err(), StatusCode::BadRequest);
}

#[test]
fn overrides_are_noticed_and_ignored() {
    let mut r = request(ADDRESS, 1, None);
    assert!(!has_overrides(&r));
    r.fee = Some(7);
    assert!(has_overrides(&r));
    r.fee = None;
    r.mnemonic = Some(String::new());
    assert!(has_overrides(&r));
    r.mnemonic = None;
    r.spending_key = Some("k".to_string());
    assert!(has_overrides(&r));
    assert_eq!(prepare_receiver(&r).unwrap().recipient_address, ADDRESS);
}

#[test]
fn wallets_that_cannot_spend_are_forbidden_to_send() {
    for account in [None, Some(KeyStore::View), Some(KeyStore::Empty)] {
        for to in [ADDRESS, "nowhere"] {
            let (flow, action) = SendFlow::start(request(to, 1, None));
            assert!(matches!(action, SendAction::CheckKey { account: 0 }));
            let (flow, action) = flow.step(SendEvent::KeyChecked(account));
            assert!(matches!(flow, SendFlow::Finished));
            assert_eq!(refused(action), StatusCode::Forbidden);
        }
    }
}

#[test]
fn payment_is_sent_even_after_a_failed_sync() {
    for synced in [true, false] {
        let (flow, _) = SendFlow::start(request(ADDRESS, 5, Some("hi")));
        let (flow, action) = flow.step(SendEvent::KeyChecked(Some(KeyStore::Spend)));
        match action {
            SendAction::Compose(receiver) => assert_eq!(receiver.recipient_address, ADDRESS),
            other => panic!("{other:?}"),
        }
        let (flow, action) = flow.step(SendEvent::Composed(true));
        assert!(matches!(action, SendAction::Sync));
        let (flow, action) = flow.step(SendEvent::Synced(synced));
        assert!(matches!(action, SendAction::Transmit { account: 0 }));
        let ids = vec!["id0".to_string(), "id1".to_string()];
        let (flow, action) = flow.step(SendEvent::Transmitted(Some(ids)));
        assert!(matches!(flow, SendFlow::Finished));
        match action {
            SendAction::Reply(Ok(response)) => assert_eq!(response.tx_id, "id0"),
            other => panic!("{other:?}"),
        }
    }
}

#[test]
fn failures_on_the_way_are_answered() {
    let spend = || SendEvent::KeyChecked(Some(KeyStore::Spend));
    let (flow, _) = SendFlow::start(request("nowhere", 5, None));
    let (_, action) = flow.step(spend());
    assert_eq!(refused(action), StatusCode::BadRequest);

    let (flow, _) = SendFlow::start(request(ADDRESS, 5, None));
    let (flow, _) = flow.step(spend());
    let (_, action) = flow.step(SendEvent::Composed(false));
    assert_eq!(refused(action), StatusCode::BadRequest);

    let (flow, _) = SendFlow::start(request(ADDRESS, 5, None));
    let (flow, _) = flow.step(spend());
    let (flow, _) = flow.step(SendEvent::Composed(true));
    let (flow, _) = flow.step(SendEvent::Synced(true));
    let (_, action) = flow.step(SendEvent::Transmitted(None));
    assert_eq!(refused(action), StatusCode::InternalServerError);
}

#[test]
fn event_out_of_turn_ends_the_flow() {
    let (flow, _) = SendFlow::start(request(ADDRESS, 5, None));
    let ids = vec!["id0".to_string()];
    let (flow, action) = flow.step(SendEvent::Transmitted(Some(ids)));
    assert!(matches!(flow, SendFlow::Finished));
    assert_eq!(refused(action), StatusCode::InternalServerError);
    let (flow, action) = flow.step(SendEvent::Composed(true));
    assert!(matches!(flow, SendFlow::Finished));
    assert_eq!(refused(action), StatusCode::InternalServerError);
}
