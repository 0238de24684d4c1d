//! What `GET /transactions` reports.

use vstd::prelude::*;

use crate::error::StatusCode;
use crate::status::block_height_to_u64;

verus! {

/// How many transactions are reported at most.
pub const REPORTED_TRANSACTIONS: usize = 3;

/// What a transaction says of one of its notes.
#[derive(Debug)]
pub struct NoteSummary {
    /// The memo, where the note has one in text.
    pub memo: Option<String>,
}

/// What the wallet tells of a transaction.
#[derive(Debug)]
pub struct TransactionSummary {
    pub txid: String,
    pub status: String,
    pub kind: String,
    pub value: u64,
    pub fee: Option<u64>,
    pub blockheight: u32,
    pub datetime: u32,
    pub orchard_notes: Vec<NoteSummary>,
    pub sapling_notes: Vec<NoteSummary>,
    pub outgoing_orchard_notes: Vec<NoteSummary>,
    pub outgoing_sapling_notes: Vec<NoteSummary>,
}

/// What is reported of a transaction.
#[derive(Debug)]
pub struct TransactionItem {
    pub tx_id: String,
    pub status: String,
    pub kind: String,
    pub value: u64,
    pub fee: Option<u64>,
    pub block_height: u64,
    pub datetime: u32,
    pub memos: Vec<String>,
}

/// The answer to `GET /transactions`.
#[derive(Debug)]
pub struct TransactionsResponse {
    pub transactions: Vec<TransactionItem>,
}

/// What `NoteSummary` holds: its memo.
impl DeepView for NoteSummary {
    type V = Option<Seq<char>>;

    open spec fn deep_view(&self) -> Option<Seq<char>> {
        self.memo.deep_view()
    }
}

/// What `TransactionSummary` holds; of the notes, their memos.
pub struct SummaryModel {
    pub txid: Seq<char>,
    pub status: Seq<char>,
    pub kind: Seq<char>,
    pub value: u64,
    pub fee: Option<u64>,
    pub blockheight: u32,
    pub datetime: u32,
    pub orchard_notes: Seq<Option<Seq<char>>>,
    pub sapling_notes: Seq<Option<Seq<char>>>,
    pub outgoing_orchard_notes: Seq<Option<Seq<char>>>,
    pub outgoing_sapling_notes: Seq<Option<Seq<char>>>,
}

impl DeepView for TransactionSummary {
    type V = SummaryModel;

    open spec fn deep_view(&self) -> SummaryModel {
        SummaryModel {
            txid: self.txid@,
            status: self.status@,
            kind: self.kind@,
            value: self.value,
            fee: self.fee,
            blockheight: self.blockheight,
            datetime: self.datetime,
            orchard_notes: self.orchard_notes.deep_view(),
            sapling_notes: self.sapling_notes.deep_view(),
            outgoing_orchard_notes: self.outgoing_orchard_notes.deep_view(),
            outgoing_sapling_notes: self.outgoing_sapling_notes.deep_view(),
        }
    }
}

/// What `TransactionItem` holds.
#[verifier::ext_equal]
pub struct ItemModel {
    pub tx_id: Seq<char>,
    pub status: Seq<char>,
    pub kind: Seq<char>,
    pub value: u64,
    pub fee: Option<u64>,
    pub block_height: u64,
    pub datetime: u32,
    pub memos: Seq<Seq<char>>,
}

impl DeepView for TransactionItem {
    type V = ItemModel;

    open spec fn deep_view(&self) -> ItemModel {
        ItemModel {
            tx_id: self.tx_id@,
            status: self.status@,
            kind: self.kind@,
            value: self.value,
            fee: self.fee,
            block_height: self.block_height,
            datetime: self.datetime,
            memos: self.memos.deep_view(),
        }
    }
}

/// The memos among `notes`, in their order.
pub open spec fn memos_in(notes: Seq<Option<Seq<char>>>) -> Seq<Seq<char>> {
    notes.filter(|memo: Option<Seq<char>>| memo is Some).map_values(
        |memo: Option<Seq<char>>| memo->0,
    )
}

/// All the notes of a transaction: those received before those sent, and Orchard
/// before Sapling in each.
pub open spec fn notes_of(summary: SummaryModel) -> Seq<Option<Seq<char>>> {
    summary.orchard_notes + summary.sapling_notes + summary.outgoing_orchard_notes
        + summary.outgoing_sapling_notes
}

/// What is reported of a transaction.
pub open spec fn item_of(summary: SummaryModel) -> ItemModel {
    ItemModel {
        tx_id: summary.txid,
        status: summary.status,
        kind: summary.kind,
        value: summary.value,
        fee: summary.fee,
        block_height: summary.blockheight as u64,
        datetime: summary.datetime,
        memos: memos_in(notes_of(summary)),
    }
}

/// What is reported of the transactions of a wallet: the first few.
pub open spec fn items_of(summaries: Seq<SummaryModel>) -> Seq<ItemModel> {
    let count = if summaries.len() < REPORTED_TRANSACTIONS {
        summaries.len() as int
    } else {
        REPORTED_TRANSACTIONS as int
    };
    summaries.take(count).map_values(|summary: SummaryModel| item_of(summary))
}

/// One more note adds its memo, if it has one.
proof fn lemma_memos_in_push(notes: Seq<Option<Seq<char>>>, note: Option<Seq<char>>)
    ensures
        memos_in(notes.push(note)) == (match note {
            Some(memo) => memos_in(notes).push(memo),
            None => memos_in(notes),
        }),
{
    reveal(Seq::filter);
    assert(notes.push(note).drop_last() == notes);
}

/// Adds the memos of more notes to those collected so far.
fn collect_memos(
    memos: &mut Vec<String>,
    notes: &Vec<NoteSummary>,
    so_far: Ghost<Seq<Option<Seq<char>>>>,
)
    requires
        old(memos).deep_view() == memos_in(so_far@),
    ensures
        final(memos).deep_view() == memos_in(so_far@ + notes.deep_view()),
{
    assert(so_far@ + notes.deep_view().take(0) == so_far@);
    for i in 0..notes.len()
        invariant
            memos.deep_view() == memos_in(so_far@ + notes.deep_view().take(i as int)),
    {
        proof {
            let seen = so_far@ + notes.deep_view().take(i as int);
            let note = notes.deep_view()[i as int];
            lemma_memos_in_push(seen, note);
            assert(seen.push(note) == so_far@ + notes.deep_view().take(i + 1));
        }
        let ghost before = memos.deep_view();
        if let Some(memo) = &notes[i].memo {
            memos.push(memo.clone());
            assert(memos.deep_view() == before.push(memo@));
        }
    }
    assert(notes.deep_view().take(notes.len() as int) == notes.deep_view());
}

/// Lays out what is reported of a transaction.
pub fn transaction_item_from_summary(summary: &TransactionSummary) -> (item: TransactionItem)
    ensures
        item.deep_view() == item_of(summary.deep_view()),
        item.tx_id@ == summary.txid@,
        item.status@ == summary.status@,
        item.kind@ == summary.kind@,
        item.value == summary.value,
        item.fee == summary.fee,
        item.block_height == summary.blockheight,
        item.datetime == summary.datetime,
        item.memos.deep_view() == memos_in(summary.orchard_notes.deep_view()) + memos_in(
            summary.sapling_notes.deep_view(),
        ) + memos_in(summary.outgoing_orchard_notes.deep_view()) + memos_in(
            summary.outgoing_sapling_notes.deep_view(),
        ),
{
    proof {
        memos_come_list_by_list(summary.deep_view());
    }
    let mut memos: Vec<String> = Vec::new();
    let ghost none = Seq::<Option<Seq<char>>>::empty();
    let ghost s = summary.deep_view();
    proof {
        reveal(Seq::filter);
        assert(memos.deep_view() == memos_in(none));
    }
    collect_memos(&mut memos, &summary.orchard_notes, Ghost(none));
    collect_memos(&mut memos, &summary.sapling_notes, Ghost(none + s.orchard_notes));
    collect_memos(
        &mut memos,
        &summary.outgoing_orchard_notes,
        Ghost(none + s.orchard_notes + s.sapling_notes),
    );
    collect_memos(
        &mut memos,
        &summary.outgoing_sapling_notes,
        Ghost(none + s.orchard_notes + s.sapling_notes + s.outgoing_orchard_notes),
    );
    assert(none + s.orchard_notes + s.sapling_notes + s.outgoing_orchard_notes
        + s.outgoing_sapling_notes == notes_of(s));
    TransactionItem {
        tx_id: summary.txid.clone(),
        status: summary.status.clone(),
        kind: summary.kind.clone(),
        value: summary.value,
        fee: summary.fee,
        block_height: block_height_to_u64(summary.blockheight),
        datetime: summary.datetime,
        memos,
    }
}

/// Answers `GET /transactions` from the summaries that the wallet gave, newest
/// first, or from its failure to give any.
pub fn transactions(summaries: Option<Vec<TransactionSummary>>) -> (answer: Result<
    TransactionsResponse,
    StatusCode,
>)
    ensures
        match (summaries, answer) {
            (Some(s), Ok(response)) => response.transactions.deep_view() == items_of(s.deep_view()),
            (None, Err(status)) => status == StatusCode::InternalServerError,
            _ => false,
        },
        match (summaries, answer) {
            (Some(s), Ok(response)) => {
                &&& response.transactions.len() == (if s.len() < 3 {
                    s.len()
                } else {
                    3
                })
                &&& forall|i: int|
                    #![trigger response.transactions@[i]]
                    0 <= i < response.transactions.len() ==> {
                        let (item, summary) = (response.transactions@[i], s@[i]);
                        &&& item.tx_id@ == summary.txid@
                        &&& item.status@ == summary.status@
                        &&& item.kind@ == summary.kind@
                        &&& item.value == summary.value
                        &&& item.fee == summary.fee
                        &&& item.block_height == summary.blockheight
                        &&& item.datetime == summary.datetime
                        &&& item.memos.deep_view() == memos_in(summary.orchard_notes.deep_view())
                            + memos_in(summary.sapling_notes.deep_view()) + memos_in(
                            summary.outgoing_orchard_notes.deep_view(),
                        ) + memos_in(summary.outgoing_sapling_notes.deep_view())
                    }
            },
            (None, Err(status)) => status == StatusCode::InternalServerError,
            _ => false,
        },
{
    let summaries = match summaries {
        Some(summaries) => summaries,
        None => {
            return Err(StatusCode::InternalServerError);
        },
    };
    let mut transactions: Vec<TransactionItem> = Vec::new();
    let mut i: usize = 0;
    while i < summaries.len() && i < REPORTED_TRANSACTIONS
        invariant
            i <= summaries.len(),
            i <= REPORTED_TRANSACTIONS,
            transactions.deep_view() == summaries.deep_view().take(i as int).map_values(
                |summary: SummaryModel| item_of(summary),
            ),
            transactions.len() == i,
            forall|j: int|
                #![trigger transactions@[j]]
                0 <= j < i ==> {
                    let (item, summary) = (transactions@[j], summaries@[j]);
                    &&& item.tx_id@ == summary.txid@
                    &&& item.status@ == summary.status@
                    &&& item.kind@ == summary.kind@
                    &&& item.value == summary.value
                    &&& item.fee == summary.fee
                    &&& item.block_height == summary.blockheight
                    &&& item.datetime == summary.datetime
                    &&& item.memos.deep_view() == memos_in(summary.orchard_notes.deep_view())
                        + memos_in(summary.sapling_notes.deep_view()) + memos_in(
                        summary.outgoing_orchard_notes.deep_view(),
                    ) + memos_in(summary.outgoing_sapling_notes.deep_view())
                },
        decreases summaries.len() - i,
    {
        let ghost before = transactions.deep_view();
        let item = transaction_item_from_summary(&summaries[i]);
        transactions.push(item);
        assert(transactions.deep_view() == before.push(item.deep_view()));
        i += 1;
    }
    Ok(TransactionsResponse { transactions })
}

/// The three most recent transactions are reported, most recent first, or all of
/// them where there are fewer: given summaries in the order of falling recency, no
/// transaction that is left out is more recent than one that is reported.
pub proof fn most_recent_are_reported(
    summaries: Seq<SummaryModel>,
    recency: spec_fn(SummaryModel) -> int,
)
    requires
        forall|i: int, j: int|
            0 <= i <= j < summaries.len() ==> recency(#[trigger] summaries[i]) >= recency(
                #[trigger] summaries[j],
            ),
    ensures
        items_of(summaries).len() == (if summaries.len() < 3 {
            summaries.len()
        } else {
            3
        }),
        forall|i: int|
            0 <= i < items_of(summaries).len() ==> #[trigger] items_of(summaries)[i] == item_of(
                summaries[i],
            ),
        forall|i: int, j: int|
            0 <= i < items_of(summaries).len() <= j < summaries.len() ==> recency(
                #[trigger] summaries[i],
            ) >= recency(#[trigger] summaries[j]),
{
}

/// A memo is reported exactly when a note of the transaction carries it.
pub proof fn memos_are_those_of_notes(summary: SummaryModel, memo: Seq<char>)
    ensures
        item_of(summary).memos.contains(memo) <==> notes_of(summary).contains(Some(memo)),
{
    let notes = notes_of(summary);
    let present = |memo: Option<Seq<char>>| memo is Some;
    let kept = notes.filter(present);
    let memos = memos_in(notes);
    if memos.contains(memo) {
        let i = choose|i: int| 0 <= i < memos.len() && memos[i] == memo;
        notes.lemma_filter_pred(present, i);
        assert(kept[i] == Some(memo));
        notes.lemma_filter_contains_rev(present, Some(memo));
    }
    if notes.contains(Some(memo)) {
        let n = choose|n: int| 0 <= n < notes.len() && notes[n] == Some(memo);
        notes.lemma_filter_contains(present, n);
        let i = choose|i: int| 0 <= i < kept.len() && kept[i] == Some(memo);
        assert(memos[i] == memo);
    }
}

/// A list of notes shows the memo of each of them, in its place.
pub proof fn notes_show_their_memos(notes: Vec<NoteSummary>)
    ensures
        notes.deep_view().len() == notes.len(),
        forall|i: int|
            0 <= i < notes.len() ==> #[trigger] notes.deep_view()[i] == notes@[i].memo.deep_view(),
{
}

/// The memos of two runs of notes are those of the one and then those of the other. A
/// note with a memo adds that memo, and one without adds nothing.
pub proof fn memos_come_in_order(
    notes: Seq<Option<Seq<char>>>,
    more: Seq<Option<Seq<char>>>,
    memo: Seq<char>,
)
    ensures
        memos_in(notes + more) == memos_in(notes) + memos_in(more),
        memos_in(notes.push(Some(memo))) == memos_in(notes).push(memo),
        memos_in(notes.push(None)) == memos_in(notes),
        memos_in(Seq::empty()) == Seq::<Seq<char>>::empty(),
{
    Seq::filter_distributes_over_add(notes, more, |memo: Option<Seq<char>>| memo is Some);
    lemma_memos_in_push(notes, Some(memo));
    lemma_memos_in_push(notes, None);
    reveal(Seq::filter);
}

/// The memos of a transaction are those of its received Orchard notes, its received
/// Sapling notes, its sent Orchard notes and its sent Sapling notes, each list in its own
/// order. No list depends on another.
pub proof fn memos_come_list_by_list(summary: SummaryModel)
    ensures
        item_of(summary).memos == memos_in(summary.orchard_notes) + memos_in(summary.sapling_notes)
            + memos_in(summary.outgoing_orchard_notes) + memos_in(summary.outgoing_sapling_notes),
{
    let (a, b, c, d) = (
        summary.orchard_notes,
        summary.sapling_notes,
        summary.outgoing_orchard_notes,
        summary.outgoing_sapling_notes,
    );
    memos_come_in_order(a, b, Seq::empty());
    memos_come_in_order(a + b, c, Seq::empty());
    memos_come_in_order(a + b + c, d, Seq::empty());
}

/// A memo is reported exactly when one of the four lists of notes carries it.
pub proof fn memos_are_those_of_four_lists(summary: SummaryModel, memo: Seq<char>)
    ensures
        item_of(summary).memos.contains(memo) <==> summary.orchard_notes.contains(Some(memo))
            || summary.sapling_notes.contains(Some(memo)) || summary.outgoing_orchard_notes.contains(
            Some(memo),
        ) || summary.outgoing_sapling_notes.contains(Some(memo)),
{
    memos_are_those_of_notes(summary, memo);
    let (a, b, c, d) = (
        summary.orchard_notes,
        summary.sapling_notes,
        summary.outgoing_orchard_notes,
        summary.outgoing_sapling_notes,
    );
    let note = Some(memo);
    lemma_concat_contains(a, b, note);
    lemma_concat_contains(a + b, c, note);
    lemma_concat_contains(a + b + c, d, note);
}

/// One of two runs of notes has what both together have.
proof fn lemma_concat_contains(
    notes: Seq<Option<Seq<char>>>,
    more: Seq<Option<Seq<char>>>,
    note: Option<Seq<char>>,
)
    ensures
        (notes + more).contains(note) <==> notes.contains(note) || more.contains(note),
{
    if notes.contains(note) {
        let i = choose|i: int| 0 <= i < notes.len() && notes[i] == note;
        assert((notes + more)[i] == note);
    }
    if more.contains(note) {
        let i = choose|i: int| 0 <= i < more.len() && more[i] == note;
        assert((notes + more)[notes.len() + i] == note);
    }
}

/// One more sent note adds its memo at the end, and changes nothing else that is
/// reported of the transaction.
pub proof fn one_more_note_adds_its_memo(summary: SummaryModel, memo: Seq<char>)
    ensures
        item_of(
            (SummaryModel {
                outgoing_sapling_notes: summary.outgoing_sapling_notes.push(Some(memo)),
                ..summary
            }),
        ) == (ItemModel { memos: item_of(summary).memos.push(memo), ..item_of(summary) }),
{
    let longer = SummaryModel {
        outgoing_sapling_notes: summary.outgoing_sapling_notes.push(Some(memo)),
        ..summary
    };
    memos_come_list_by_list(summary);
    memos_come_list_by_list(longer);
    memos_come_in_order(summary.outgoing_sapling_notes, Seq::empty(), memo);
}

/// What is reported of a transaction is what the wallet tells of it, field by field.
pub proof fn items_tell_of_their_transaction(summary: SummaryModel)
    ensures
        item_of(summary).tx_id == summary.txid,
        item_of(summary).status == summary.status,
        item_of(summary).kind == summary.kind,
        item_of(summary).value == summary.value,
        item_of(summary).fee == summary.fee,
        item_of(summary).block_height == summary.blockheight,
        item_of(summary).datetime == summary.datetime,
{
}

/// The first three transactions are reported, in the wallet's order, or all of them
/// where there are fewer. What comes after the third does not matter.
pub proof fn first_three_are_reported(summaries: Seq<SummaryModel>, more: Seq<SummaryModel>)
    ensures
        items_of(summaries).len() == (if summaries.len() < 3 {
            summaries.len()
        } else {
            3
        }),
        forall|i: int|
            0 <= i < items_of(summaries).len() ==> #[trigger] items_of(summaries)[i] == item_of(
                summaries[i],
            ),
        summaries.len() >= 3 ==> items_of(summaries + more) == items_of(summaries),
{
}

} // verus!
