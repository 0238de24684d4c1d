//! What `POST /send-shielded-tx` does, step by step.
//!
//! Answering the request takes turns with the wallet: the flow asks for one
//! thing to be done, is told how it went, and asks for the next, until it has a
//! reply.

use vstd::prelude::*;
use vstd::utf8::encode_utf8;

use crate::amount::Amount;
use crate::error::StatusCode;
use crate::keys::{can_spend, spends, KeyStore, ACCOUNT};
use crate::outside::{
    address_encoding, bytes_of, memo_field, memo_from_bytes, memo_is_kept_and_padded,
    parse_address, MAX_MONEY,
};

verus! {

/// The body of the request.
#[derive(Debug)]
pub struct SendShieldedTxRequest {
    pub to_address: String,
    pub amount_zat: u64,
    pub memo: Option<String>,
    /// Accepted and ignored: the key comes from the environment.
    pub spending_key: Option<String>,
    /// Accepted and ignored: the key comes from the environment.
    pub mnemonic: Option<String>,
    /// Accepted and ignored: the wallet sets the fee.
    pub fee: Option<u64>,
}

/// What `SendShieldedTxRequest` holds.
pub struct RequestModel {
    pub to_address: Seq<char>,
    pub amount_zat: u64,
    pub memo: Option<Seq<char>>,
    pub spending_key: Option<Seq<char>>,
    pub mnemonic: Option<Seq<char>>,
    pub fee: Option<u64>,
}

impl View for SendShieldedTxRequest {
    type V = RequestModel;

    open spec fn view(&self) -> RequestModel {
        RequestModel {
            to_address: self.to_address@,
            amount_zat: self.amount_zat,
            memo: self.memo.deep_view(),
            spending_key: self.spending_key.deep_view(),
            mnemonic: self.mnemonic.deep_view(),
            fee: self.fee,
        }
    }
}

/// The answer to the request.
#[derive(Debug)]
pub struct SendShieldedTxResponse {
    pub tx_id: String,
}

/// Whom to pay, how much, and with which memo field.
#[derive(Debug)]
pub struct Receiver {
    /// The canonical encoding of the address.
    pub recipient_address: String,
    pub amount: Amount,
    /// All the bytes of the memo field.
    pub memo: Option<Vec<u8>>,
}

/// What `Receiver` holds.
pub struct ReceiverModel {
    pub recipient_address: Seq<char>,
    pub amount: u64,
    pub memo: Option<Seq<u8>>,
}

impl View for Receiver {
    type V = ReceiverModel;

    open spec fn view(&self) -> ReceiverModel {
        ReceiverModel {
            recipient_address: self.recipient_address@,
            amount: self.amount@,
            memo: bytes_of(self.memo),
        }
    }
}

/// What a fallible construction of a `Receiver` came to.
pub open spec fn receiver_outcome(receiver: Result<Receiver, StatusCode>) -> Result<
    ReceiverModel,
    StatusCode,
> {
    match receiver {
        Ok(r) => Ok(r@),
        Err(e) => Err(e),
    }
}

/// Whether the memo of a request fits a memo field, in UTF-8.
pub open spec fn memo_fits(memo: Option<Seq<char>>) -> bool {
    memo is Some ==> memo_field(encode_utf8(memo->0)) is Some
}

/// The receiver that a request describes, where `address` is what its address
/// reads as. A bad amount, address or memo makes a bad request.
pub open spec fn receiver_at(request: RequestModel, address: Option<Seq<char>>) -> Result<
    ReceiverModel,
    StatusCode,
> {
    if request.amount_zat <= MAX_MONEY && address is Some && memo_fits(request.memo) {
        Ok(
            ReceiverModel {
                recipient_address: address->0,
                amount: request.amount_zat,
                memo: match request.memo {
                    Some(memo) => memo_field(encode_utf8(memo)),
                    None => None,
                },
            },
        )
    } else {
        Err(StatusCode::BadRequest)
    }
}

/// The receiver that a request describes.
pub open spec fn receiver_of(request: RequestModel) -> Result<ReceiverModel, StatusCode> {
    receiver_at(request, address_encoding(request.to_address))
}

/// Tells whether a request carries a key or a fee, which are ignored.
pub fn has_overrides(request: &SendShieldedTxRequest) -> (r: bool)
    ensures
        r == (request.spending_key is Some || request.mnemonic is Some || request.fee is Some),
{
    request.spending_key.is_some() || request.mnemonic.is_some() || request.fee.is_some()
}

/// Makes the receiver that a request describes, given what its address reads as.
pub fn build_receiver(request: &SendShieldedTxRequest, address: Option<String>) -> (receiver:
    Result<Receiver, StatusCode>)
    ensures
        receiver_outcome(receiver) == receiver_at(request@, address.deep_view()),
        match receiver {
            Ok(r) => {
                &&& r.amount@ == request.amount_zat
                &&& request.amount_zat <= 2_100_000_000_000_000
                &&& address is Some && r.recipient_address@ == address->0@
                &&& r.memo is Some <==> request.memo is Some
                &&& request.memo is Some ==> {
                    let (bytes, field) = (encode_utf8(request.memo->0@), r.memo->0@);
                    &&& bytes.len() <= 512 && field.len() == 512
                    &&& field.take(bytes.len() as int) == bytes
                    &&& forall|i: int| bytes.len() <= i < 512 ==> #[trigger] field[i] == 0
                }
            },
            Err(status) => status == StatusCode::BadRequest && {
                ||| request.amount_zat > 2_100_000_000_000_000
                ||| address is None
                ||| request.memo is Some && encode_utf8(request.memo->0@).len() > 512
            },
        },
{
    let amount = match Amount::from_u64(request.amount_zat) {
        Some(amount) => amount,
        None => {
            return Err(StatusCode::BadRequest);
        },
    };
    let recipient_address = match address {
        Some(address) => address,
        None => {
            return Err(StatusCode::BadRequest);
        },
    };
    let memo = match &request.memo {
        Some(memo) => match memo_from_bytes(memo.as_str().as_bytes()) {
            Some(bytes) => Some(bytes),
            None => {
                return Err(StatusCode::BadRequest);
            },
        },
        None => None,
    };
    Ok(Receiver { recipient_address, amount, memo })
}

/// Makes the receiver that a request describes.
pub fn prepare_receiver(request: &SendShieldedTxRequest) -> (receiver: Result<Receiver, StatusCode>)
    ensures
        receiver_outcome(receiver) == receiver_of(request@),
        match receiver {
            Ok(r) => {
                &&& r.amount@ == request.amount_zat
                &&& request.amount_zat <= 2_100_000_000_000_000
                &&& address_encoding(request.to_address@) == Some(r.recipient_address@)
                &&& r.memo is Some <==> request.memo is Some
                &&& request.memo is Some ==> {
                    let (bytes, field) = (encode_utf8(request.memo->0@), r.memo->0@);
                    &&& bytes.len() <= 512 && field.len() == 512
                    &&& field.take(bytes.len() as int) == bytes
                    &&& forall|i: int| bytes.len() <= i < 512 ==> #[trigger] field[i] == 0
                }
            },
            Err(status) => status == StatusCode::BadRequest && {
                ||| request.amount_zat > 2_100_000_000_000_000
                ||| address_encoding(request.to_address@) is None
                ||| request.memo is Some && encode_utf8(request.memo->0@).len() > 512
            },
        },
{
    build_receiver(request, parse_address(request.to_address.as_str()))
}

/// How far the answer to a request has come.
#[derive(Debug)]
pub enum SendFlow {
    /// Waiting to hear which keys the wallet holds.
    CheckingKey(SendShieldedTxRequest),
    /// Waiting for the payment to be put together.
    Composing,
    /// Waiting for a sync to end.
    Syncing,
    /// Waiting for the payment to be sent.
    Transmitting,
    /// The reply has been given.
    Finished,
}

/// What the flow asks for.
#[derive(Debug)]
pub enum SendAction {
    /// Look which keys the wallet holds for the account.
    CheckKey { account: u32 },
    /// Put a payment to the receiver together.
    Compose(Receiver),
    /// Sync the wallet.
    Sync,
    /// Send the payment from the account.
    Transmit { account: u32 },
    /// Give this reply.
    Reply(Result<SendShieldedTxResponse, StatusCode>),
}

/// How it went.
#[derive(Debug)]
pub enum SendEvent {
    /// The keys of the account that was to be looked at, where the wallet has it.
    KeyChecked(Option<KeyStore>),
    /// Whether the payment could be put together.
    Composed(bool),
    /// Whether the sync succeeded.
    Synced(bool),
    /// The ids of the transactions that were sent, or nothing where sending failed.
    Transmitted(Option<Vec<String>>),
}

/// What `SendFlow` holds.
pub enum FlowModel {
    CheckingKey(RequestModel),
    Composing,
    Syncing,
    Transmitting,
    Finished,
}

/// What `SendAction` holds; a reply that succeeds is its transaction id.
pub enum ActionModel {
    CheckKey { account: u32 },
    Compose(ReceiverModel),
    Sync,
    Transmit { account: u32 },
    Reply(Result<Seq<char>, StatusCode>),
}

/// What `SendEvent` holds.
pub enum EventModel {
    KeyChecked(Option<KeyStore>),
    Composed(bool),
    Synced(bool),
    Transmitted(Option<Seq<Seq<char>>>),
}

impl View for SendFlow {
    type V = FlowModel;

    open spec fn view(&self) -> FlowModel {
        match self {
            SendFlow::CheckingKey(request) => FlowModel::CheckingKey(request@),
            SendFlow::Composing => FlowModel::Composing,
            SendFlow::Syncing => FlowModel::Syncing,
            SendFlow::Transmitting => FlowModel::Transmitting,
            SendFlow::Finished => FlowModel::Finished,
        }
    }
}

impl View for SendAction {
    type V = ActionModel;

    open spec fn view(&self) -> ActionModel {
        match self {
            SendAction::CheckKey { account } => ActionModel::CheckKey { account: *account },
            SendAction::Compose(receiver) => ActionModel::Compose(receiver@),
            SendAction::Sync => ActionModel::Sync,
            SendAction::Transmit { account } => ActionModel::Transmit { account: *account },
            SendAction::Reply(Ok(response)) => ActionModel::Reply(Ok(response.tx_id@)),
            SendAction::Reply(Err(status)) => ActionModel::Reply(Err(*status)),
        }
    }
}

impl View for SendEvent {
    type V = EventModel;

    open spec fn view(&self) -> EventModel {
        match self {
            SendEvent::KeyChecked(account) => EventModel::KeyChecked(*account),
            SendEvent::Composed(done) => EventModel::Composed(*done),
            SendEvent::Synced(done) => EventModel::Synced(*done),
            SendEvent::Transmitted(ids) => EventModel::Transmitted(ids.deep_view()),
        }
    }
}

/// Whatever was sent has at least one transaction.
pub open spec fn sound(event: EventModel) -> bool {
    event matches EventModel::Transmitted(Some(ids)) ==> ids.len() > 0
}

/// Whether `event` tells what `flow` is waiting to hear.
pub open spec fn expects(flow: FlowModel, event: EventModel) -> bool {
    match (flow, event) {
        (FlowModel::CheckingKey(_), EventModel::KeyChecked(_)) => true,
        (FlowModel::Composing, EventModel::Composed(_)) => true,
        (FlowModel::Syncing, EventModel::Synced(_)) => true,
        (FlowModel::Transmitting, EventModel::Transmitted(_)) => sound(event),
        _ => false,
    }
}

/// Where `event` takes `flow`, and what the flow asks for then. An event that the
/// flow is not waiting for ends it with an internal error.
pub open spec fn flow_step(flow: FlowModel, event: EventModel) -> (FlowModel, ActionModel)
    recommends
        sound(event),
{
    match (flow, event) {
        (FlowModel::CheckingKey(request), EventModel::KeyChecked(account)) => {
            if !spends(account) {
                (FlowModel::Finished, ActionModel::Reply(Err(StatusCode::Forbidden)))
            } else {
                match receiver_of(request) {
                    Ok(receiver) => (FlowModel::Composing, ActionModel::Compose(receiver)),
                    Err(status) => (FlowModel::Finished, ActionModel::Reply(Err(status))),
                }
            }
        },
        (FlowModel::Composing, EventModel::Composed(done)) => {
            if done {
                (FlowModel::Syncing, ActionModel::Sync)
            } else {
                (FlowModel::Finished, ActionModel::Reply(Err(StatusCode::BadRequest)))
            }
        },
        (FlowModel::Syncing, EventModel::Synced(_)) => (
            FlowModel::Transmitting,
            ActionModel::Transmit { account: ACCOUNT },
        ),
        (FlowModel::Transmitting, EventModel::Transmitted(Some(ids))) => (
            FlowModel::Finished,
            ActionModel::Reply(Ok(ids[0])),
        ),
        _ => (FlowModel::Finished, ActionModel::Reply(Err(StatusCode::InternalServerError))),
    }
}

impl SendFlow {
    /// Starts to answer a request.
    pub fn start(request: SendShieldedTxRequest) -> (next: (SendFlow, SendAction))
        ensures
            next.0@ == FlowModel::CheckingKey(request@),
            next.1@ == (ActionModel::CheckKey { account: ACCOUNT }),
            next.0 == SendFlow::CheckingKey(request),
            next.1 == (SendAction::CheckKey { account: 0 }),
    {
        (SendFlow::CheckingKey(request), SendAction::CheckKey { account: ACCOUNT })
    }

    /// Goes on once the last thing asked for has been done. A failed sync is no
    /// reason to stop. An event that the flow is not waiting for ends it with an
    /// internal error.
    pub fn step(self, event: SendEvent) -> (next: (SendFlow, SendAction))
        requires
            sound(event@),
        ensures
            (next.0@, next.1@) == flow_step(self@, event@),
            match (self, event) {
                (SendFlow::CheckingKey(request), SendEvent::KeyChecked(account)) => match next {
                    (SendFlow::Composing, SendAction::Compose(r)) => {
                        &&& account == Some(KeyStore::Spend)
                        &&& r.amount@ == request.amount_zat
                        &&& request.amount_zat <= 2_100_000_000_000_000
                        &&& address_encoding(request.to_address@) == Some(r.recipient_address@)
                        &&& r.memo is Some <==> request.memo is Some
                        &&& request.memo is Some ==> {
                            let (bytes, field) = (encode_utf8(request.memo->0@), r.memo->0@);
                            &&& bytes.len() <= 512 && field.len() == 512
                            &&& field.take(bytes.len() as int) == bytes
                            &&& forall|i: int| bytes.len() <= i < 512 ==> #[trigger] field[i] == 0
                        }
                    },
                    (SendFlow::Finished, SendAction::Reply(Err(StatusCode::Forbidden))) => account
                        != Some(KeyStore::Spend),
                    (SendFlow::Finished, SendAction::Reply(Err(StatusCode::BadRequest))) => account
                        == Some(KeyStore::Spend) && {
                        ||| request.amount_zat > 2_100_000_000_000_000
                        ||| address_encoding(request.to_address@) is None
                        ||| request.memo is Some && encode_utf8(request.memo->0@).len() > 512
                    },
                    _ => false,
                },
                (SendFlow::Composing, SendEvent::Composed(true)) => next.0 is Syncing
                    && next.1 is Sync,
                (SendFlow::Composing, SendEvent::Composed(false)) => next.0 is Finished && (
                next.1 matches SendAction::Reply(Err(status)) && status == StatusCode::BadRequest),
                (SendFlow::Syncing, SendEvent::Synced(_)) => next.0 is Transmitting && (
                next.1 matches SendAction::Transmit { account } && account == 0),
                (SendFlow::Transmitting, SendEvent::Transmitted(Some(ids))) => next.0 is Finished
                    && (next.1 matches SendAction::Reply(Ok(response)) && response.tx_id@
                    == ids@[0]@),
                _ => next.0 is Finished && (next.1 matches SendAction::Reply(Err(status)) && status
                    == StatusCode::InternalServerError),
            },
    {
        match (self, event) {
            (SendFlow::CheckingKey(request), SendEvent::KeyChecked(account)) => {
                if !can_spend(account) {
                    return (SendFlow::Finished, SendAction::Reply(Err(StatusCode::Forbidden)));
                }
                match prepare_receiver(&request) {
                    Ok(receiver) => (SendFlow::Composing, SendAction::Compose(receiver)),
                    Err(status) => (SendFlow::Finished, SendAction::Reply(Err(status))),
                }
            },
            (SendFlow::Composing, SendEvent::Composed(done)) => {
                if done {
                    (SendFlow::Syncing, SendAction::Sync)
                } else {
                    (SendFlow::Finished, SendAction::Reply(Err(StatusCode::BadRequest)))
                }
            },
            (SendFlow::Syncing, SendEvent::Synced(_)) => (
                SendFlow::Transmitting,
                SendAction::Transmit { account: ACCOUNT },
            ),
            (SendFlow::Transmitting, SendEvent::Transmitted(Some(ids))) => (
                SendFlow::Finished,
                SendAction::Reply(Ok(SendShieldedTxResponse { tx_id: ids[0].clone() })),
            ),
            _ => (
                SendFlow::Finished,
                SendAction::Reply(Err(StatusCode::InternalServerError)),
            ),
        }
    }
}

/// Where the flow is after `events`, and what it asked for last, when it answers
/// `request`.
pub open spec fn flow_after(request: RequestModel, events: Seq<EventModel>) -> (
    FlowModel,
    ActionModel,
)
    decreases events.len(),
{
    if events.len() == 0 {
        (FlowModel::CheckingKey(request), ActionModel::CheckKey { account: ACCOUNT })
    } else {
        flow_step(flow_after(request, events.drop_last()).0, events.last())
    }
}

/// Whether each of `events` tells what the flow was waiting to hear.
pub open spec fn possible_run(request: RequestModel, events: Seq<EventModel>) -> bool
    decreases events.len(),
{
    events.len() == 0 || {
        &&& possible_run(request, events.drop_last())
        &&& expects(flow_after(request, events.drop_last()).0, events.last())
    }
}

/// What happens in the wallet while a request is answered, whichever part of it is
/// called for.
pub struct WalletCourse {
    /// The keys of the account that is served.
    pub account: Option<KeyStore>,
    /// Whether the payment could be put together.
    pub composed: bool,
    /// The ids of the transactions that were sent, or nothing where sending failed.
    pub sent: Option<Seq<Seq<char>>>,
}

/// The reply that a request deserves: a wallet that cannot spend is forbidden to
/// send; then a bad amount, address, memo or payment makes a bad request; then a
/// failure to send is an internal error; and what is left is answered with the id
/// of the first transaction.
pub open spec fn deserved_reply(request: RequestModel, course: WalletCourse) -> Result<
    Seq<char>,
    StatusCode,
> {
    if !spends(course.account) {
        Err(StatusCode::Forbidden)
    } else if receiver_of(request) is Err || !course.composed {
        Err(StatusCode::BadRequest)
    } else {
        match course.sent {
            Some(ids) => Ok(ids[0]),
            None => Err(StatusCode::InternalServerError),
        }
    }
}

/// Whether `events` tell of `course`, as far as they go.
pub open spec fn tells_of(events: Seq<EventModel>, course: WalletCourse) -> bool {
    forall|i: int|
        0 <= i < events.len() ==> match #[trigger] events[i] {
            EventModel::KeyChecked(account) => account == course.account,
            EventModel::Composed(done) => done == course.composed,
            EventModel::Synced(_) => true,
            EventModel::Transmitted(sent) => sent == course.sent,
        }
}

/// A run is cut short nowhere before its end.
proof fn lemma_prefix_possible(request: RequestModel, events: Seq<EventModel>, n: int)
    requires
        possible_run(request, events),
        0 <= n <= events.len(),
    ensures
        possible_run(request, events.take(n)),
    decreases events.len() - n,
{
    if n == events.len() {
        assert(events.take(n) == events);
    } else {
        lemma_prefix_possible(request, events, n + 1);
        assert(events.take(n + 1).drop_last() == events.take(n));
    }
}

/// What each state of a possible run says of the events before it.
proof fn lemma_run_shape(request: RequestModel, events: Seq<EventModel>)
    requires
        possible_run(request, events),
    ensures
        ({
            let (flow, action) = flow_after(request, events);
            let checked = events.len() > 0 && (events[0] matches EventModel::KeyChecked(account)
                && spends(account)) && receiver_of(request) is Ok;
            match flow {
                FlowModel::CheckingKey(r) => events.len() == 0 && r == request && action
                    == (ActionModel::CheckKey { account: ACCOUNT }),
                FlowModel::Composing => events.len() == 1 && checked && action
                    == ActionModel::Compose(receiver_of(request)->Ok_0),
                FlowModel::Syncing => events.len() == 2 && checked && events[1]
                    == EventModel::Composed(true) && action == ActionModel::Sync,
                FlowModel::Transmitting => events.len() == 3 && checked && events[1]
                    == EventModel::Composed(true) && events[2] is Synced && action
                    == (ActionModel::Transmit { account: ACCOUNT }),
                FlowModel::Finished => 1 <= events.len() <= 4 && action is Reply,
            }
        }),
    decreases events.len(),
{
    if events.len() > 0 {
        let before = events.drop_last();
        lemma_run_shape(request, before);
        if before.len() > 0 {
            assert(before[0] == events[0]);
        }
        if before.len() > 1 {
            assert(before[1] == events[1]);
        }
        if before.len() > 2 {
            assert(before[2] == events[2]);
        }
    }
}

/// Every request gets the reply that it deserves, once, and nothing is asked of the
/// wallet afterwards. In particular a failed sync does not keep a payment from
/// being sent.
pub proof fn reply_is_deserved(
    request: RequestModel,
    events: Seq<EventModel>,
    course: WalletCourse,
)
    requires
        possible_run(request, events),
        tells_of(events, course),
    ensures
        match flow_after(request, events) {
            (FlowModel::Finished, action) => action == ActionModel::Reply(
                deserved_reply(request, course),
            ) && (forall|event: EventModel| !#[trigger] expects(FlowModel::Finished, event)),
            (_, action) => !(action is Reply),
        },
{
    lemma_run_shape(request, events);
    if events.len() > 0 {
        let before = events.drop_last();
        lemma_run_shape(request, before);
        assert(events.last() == events[events.len() - 1]);
        if before.len() > 0 {
            assert(before[0] == events[0]);
        }
    }
}

/// Every run comes to its reply after at most four events.
pub proof fn reply_comes(request: RequestModel, events: Seq<EventModel>)
    requires
        possible_run(request, events),
    ensures
        events.len() <= 4,
        events.len() == 4 ==> flow_after(request, events).1 is Reply,
{
    lemma_run_shape(request, events);
}

/// Nothing is sent unless the account that is served can spend. What is sent goes
/// out from that account, and is the payment that was put together, to the receiver
/// that the request describes.
pub proof fn sends_only_what_was_asked(request: RequestModel, events: Seq<EventModel>)
    requires
        possible_run(request, events),
        flow_after(request, events).1 is Transmit,
    ensures
        flow_after(request, events).1->Transmit_account == ACCOUNT,
        flow_after(request, events.take(0)).1 == (ActionModel::CheckKey { account: ACCOUNT }),
        events.len() == 3,
        events[0] == EventModel::KeyChecked(Some(KeyStore::Spend)),
        receiver_of(request) is Ok,
        flow_after(request, events.take(1)).1 == ActionModel::Compose(receiver_of(request)->Ok_0),
        events[1] == EventModel::Composed(true),
{
    lemma_run_shape(request, events);
    lemma_prefix_possible(request, events, 1);
    lemma_run_shape(request, events.take(1));
    reveal_with_fuel(flow_after, 2);
    assert(events.take(1).drop_last() == Seq::<EventModel>::empty());
    assert(events.take(1).last() == events[0]);
}

/// A key or a fee in a request changes nothing: two requests that differ in those
/// alone are answered alike, step by step.
pub proof fn overrides_are_ignored(a: RequestModel, b: RequestModel, events: Seq<EventModel>)
    requires
        a.to_address == b.to_address,
        a.amount_zat == b.amount_zat,
        a.memo == b.memo,
    ensures
        possible_run(a, events) == possible_run(b, events),
        flow_after(a, events).1 == flow_after(b, events).1,
        events.len() > 0 && possible_run(a, events) ==> flow_after(a, events) == flow_after(
            b,
            events,
        ),
    decreases events.len(),
{
    if events.len() > 0 {
        overrides_are_ignored(a, b, events.drop_last());
        if events.len() == 1 {
            assert(flow_after(a, events.drop_last()).0 == FlowModel::CheckingKey(a));
            assert(flow_after(b, events.drop_last()).0 == FlowModel::CheckingKey(b));
        }
    }
}

/// A wallet that can only view, or has no key at all, is forbidden to send, whatever
/// the request holds: even one that is bad in other ways.
pub proof fn view_only_is_forbidden(request: RequestModel, account: Option<KeyStore>)
    requires
        !spends(account),
    ensures
        flow_after(request, seq![EventModel::KeyChecked(account)]) == (
            FlowModel::Finished,
            ActionModel::Reply(Err(StatusCode::Forbidden)),
        ),
{
    reveal_with_fuel(flow_after, 2);
    assert(seq![EventModel::KeyChecked(account)].drop_last() == Seq::<EventModel>::empty());
}

/// The payment that the wallet is asked for is the one that was asked for: it pays the
/// amount of the request to the address of the request, and its memo field starts with
/// the memo of the request, in UTF-8, and holds zeros after that.
pub proof fn receiver_is_what_was_asked(request: RequestModel)
    requires
        receiver_of(request) is Ok,
    ensures
        ({
            let receiver = receiver_of(request)->Ok_0;
            &&& receiver.amount == request.amount_zat
            &&& address_encoding(request.to_address) == Some(receiver.recipient_address)
            &&& receiver.memo is Some <==> request.memo is Some
            &&& request.memo is Some ==> {
                let (bytes, field) = (encode_utf8(request.memo->0), receiver.memo->0);
                &&& field.len() == 512
                &&& field.take(bytes.len() as int) == bytes
                &&& forall|i: int| bytes.len() <= i < 512 ==> #[trigger] field[i] == 0
            }
        }),
{
    if let Some(memo) = request.memo {
        memo_is_kept_and_padded(encode_utf8(memo));
    }
}

/// A request is bad exactly when it asks for more money than can exist, names no
/// address, or has a memo of more than 512 bytes in UTF-8. Every other request describes
/// a payment.
pub proof fn bad_requests(request: RequestModel)
    ensures
        receiver_of(request) is Ok <==> {
            &&& request.amount_zat <= 2_100_000_000_000_000
            &&& address_encoding(request.to_address) is Some
            &&& request.memo is Some ==> encode_utf8(request.memo->0).len() <= 512
        },
        receiver_of(request) is Err ==> receiver_of(request)->Err_0 == StatusCode::BadRequest,
{
    if let Some(memo) = request.memo {
        memo_is_kept_and_padded(encode_utf8(memo));
    }
}

/// Requests for different amounts ask for different payments, and those for the same
/// amount pay the same, whatever else they hold. Likewise the address that is paid depends
/// on the address alone, and the memo field on the memo alone.
pub proof fn payments_differ_as_requests_do(a: RequestModel, b: RequestModel)
    requires
        receiver_of(a) is Ok,
        receiver_of(b) is Ok,
    ensures
        receiver_of(a)->Ok_0.amount == receiver_of(b)->Ok_0.amount <==> a.amount_zat
            == b.amount_zat,
        a.to_address == b.to_address ==> receiver_of(a)->Ok_0.recipient_address == receiver_of(
            b,
        )->Ok_0.recipient_address,
        a.memo == b.memo ==> receiver_of(a)->Ok_0.memo == receiver_of(b)->Ok_0.memo,
{
}

/// A request that is not bad, to a wallet that can spend, is carried through: account 0
/// is looked at, the payment is put together, the wallet is synced, and the payment goes
/// out from account 0, whether or not the sync succeeded. The reply is the id of the
/// first transaction, or an internal error where sending failed.
pub proof fn payment_goes_through(
    request: RequestModel,
    synced: bool,
    sent: Option<Seq<Seq<char>>>,
)
    requires
        request.amount_zat <= 2_100_000_000_000_000,
        address_encoding(request.to_address) is Some,
        request.memo is Some ==> encode_utf8(request.memo->0).len() <= 512,
        sent is Some ==> sent->0.len() > 0,
    ensures
        ({
            let events = seq![
                EventModel::KeyChecked(Some(KeyStore::Spend)),
                EventModel::Composed(true),
                EventModel::Synced(synced),
                EventModel::Transmitted(sent),
            ];
            let paid = flow_after(request, events.take(1)).1;
            &&& possible_run(request, events)
            &&& flow_after(request, events.take(0)).1 == (ActionModel::CheckKey { account: 0 })
            &&& paid is Compose && paid->Compose_0.amount == request.amount_zat
                && address_encoding(request.to_address) == Some(paid->Compose_0.recipient_address)
            &&& flow_after(request, events.take(2)).1 == ActionModel::Sync
            &&& flow_after(request, events.take(3)).1 == (ActionModel::Transmit { account: 0 })
            &&& flow_after(request, events).0 == FlowModel::Finished
            &&& sent is Some ==> flow_after(request, events).1 == ActionModel::Reply(
                Ok(sent->0[0]),
            )
            &&& sent is None ==> flow_after(request, events).1 == ActionModel::Reply(
                Err(StatusCode::InternalServerError),
            )
        }),
{
    bad_requests(request);
    receiver_is_what_was_asked(request);
    let events = seq![
        EventModel::KeyChecked(Some(KeyStore::Spend)),
        EventModel::Composed(true),
        EventModel::Synced(synced),
        EventModel::Transmitted(sent),
    ];
    assert(events.take(3).drop_last() == events.take(2));
    assert(events.take(2).drop_last() == events.take(1));
    assert(events.take(1).drop_last() == events.take(0));
    reveal_with_fuel(possible_run, 5);
}

/// Each thing that can be told to the flow has one answer, whatever came before: a wallet
/// without a spending key is refused, a payment that cannot be put together makes a bad
/// request, a sync is followed by sending however it ended, and what cannot be sent, or
/// is told out of turn, is an internal error.
pub proof fn turns_are_answered(
    request: RequestModel,
    account: Option<KeyStore>,
    synced: bool,
    flow: FlowModel,
    event: EventModel,
)
    ensures
        account != Some(KeyStore::Spend) ==> flow_step(
            FlowModel::CheckingKey(request),
            EventModel::KeyChecked(account),
        ) == (FlowModel::Finished, ActionModel::Reply(Err(StatusCode::Forbidden))),
        account == Some(KeyStore::Spend) && receiver_of(request) is Err ==> flow_step(
            FlowModel::CheckingKey(request),
            EventModel::KeyChecked(account),
        ) == (FlowModel::Finished, ActionModel::Reply(Err(StatusCode::BadRequest))),
        account == Some(KeyStore::Spend) && receiver_of(request) is Ok ==> flow_step(
            FlowModel::CheckingKey(request),
            EventModel::KeyChecked(account),
        ) == (FlowModel::Composing, ActionModel::Compose(receiver_of(request)->Ok_0)),
        flow_step(FlowModel::Composing, EventModel::Composed(true)) == (
            FlowModel::Syncing,
            ActionModel::Sync,
        ),
        flow_step(FlowModel::Composing, EventModel::Composed(false)) == (
            FlowModel::Finished,
            ActionModel::Reply(Err(StatusCode::BadRequest)),
        ),
        flow_step(FlowModel::Syncing, EventModel::Synced(synced)) == (
            FlowModel::Transmitting,
            ActionModel::Transmit { account: 0 },
        ),
        flow_step(FlowModel::Transmitting, EventModel::Transmitted(None)) == (
            FlowModel::Finished,
            ActionModel::Reply(Err(StatusCode::InternalServerError)),
        ),
        flow is Finished || (flow is CheckingKey && !(event is KeyChecked)) || (flow is Composing
            && !(event is Composed)) || (flow is Syncing && !(event is Synced)) || (
        flow is Transmitting && !(event is Transmitted)) ==> flow_step(flow, event) == (
            FlowModel::Finished,
            ActionModel::Reply(Err(StatusCode::InternalServerError)),
        ),
{
    bad_requests(request);
}

/// Every reply tells what happened: forbidden, exactly where the account has no spending
/// key; bad request, exactly where it has one and the request asks for too much money,
/// names no address or has too long a memo, or the payment could not be put together;
/// internal error, exactly where it was put together and could not be sent; and else the
/// id of the first transaction that was sent.
pub proof fn replies_tell_what_happened(
    request: RequestModel,
    events: Seq<EventModel>,
    course: WalletCourse,
)
    requires
        possible_run(request, events),
        tells_of(events, course),
        flow_after(request, events).1 is Reply,
    ensures
        ({
            let reply = flow_after(request, events).1->Reply_0;
            let refused = course.account != Some(KeyStore::Spend);
            let bad = request.amount_zat > 2_100_000_000_000_000 || address_encoding(
                request.to_address,
            ) is None || (request.memo is Some && encode_utf8(request.memo->0).len() > 512)
                || !course.composed;
            &&& reply == Err::<Seq<char>, StatusCode>(StatusCode::Forbidden) <==> refused
            &&& reply == Err::<Seq<char>, StatusCode>(StatusCode::BadRequest) <==> !refused && bad
            &&& reply == Err::<Seq<char>, StatusCode>(StatusCode::InternalServerError)
                <==> !refused && !bad && course.sent is None
            &&& reply is Ok <==> !refused && !bad && course.sent is Some
            &&& reply is Ok ==> reply->Ok_0 == course.sent->0[0]
        }),
{
    reply_is_deserved(request, events, course);
    bad_requests(request);
}

/// Money leaves the wallet only from account 0, only while that account holds a spending
/// key, and only in the amount and to the address that the request names.
pub proof fn money_goes_where_it_was_asked_to(request: RequestModel, events: Seq<EventModel>)
    requires
        possible_run(request, events),
        flow_after(request, events).1 is Transmit,
    ensures
        flow_after(request, events).1->Transmit_account == 0,
        events[0] == EventModel::KeyChecked(Some(KeyStore::Spend)),
        events[1] == EventModel::Composed(true),
        ({
            let paid = flow_after(request, events.take(1)).1;
            &&& paid is Compose
            &&& paid->Compose_0.amount == request.amount_zat
            &&& address_encoding(request.to_address) == Some(paid->Compose_0.recipient_address)
            &&& paid->Compose_0.memo is Some <==> request.memo is Some
        }),
{
    sends_only_what_was_asked(request, events);
    receiver_is_what_was_asked(request);
}

} // verus!
