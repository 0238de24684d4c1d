//! The background sync.

use vstd::prelude::*;

use crate::keys::{can_spend, spends, KeyStore};

verus! {

/// What the background sync has to remember from one round to the next.
#[derive(Debug)]
pub struct SyncMonitor {
    /// How the last sync that was run failed, if it did.
    pub last_error: Option<String>,
}

/// What happens to the background sync.
#[derive(Debug)]
pub enum SyncEvent {
    /// It is time for another round; told are the keys of the account that
    /// is served (`ACCOUNT`), where the wallet has it.
    Tick(Option<KeyStore>),
    /// A sync ended, well or with an error.
    Finished(Result<(), String>),
}

/// What the background sync does next.
#[derive(Clone, Copy, Debug, PartialEq, Eq, Structural)]
pub enum SyncAction {
    /// Leave this round out: the wallet can only view.
    Skip,
    /// Run a sync.
    Sync,
    /// Wait for the next round.
    Wait,
}

/// What `SyncEvent` holds.
pub enum SyncEventModel {
    Tick(Option<KeyStore>),
    Finished(Result<(), Seq<char>>),
}

impl View for SyncEvent {
    type V = SyncEventModel;

    open spec fn view(&self) -> SyncEventModel {
        match self {
            SyncEvent::Tick(account) => SyncEventModel::Tick(*account),
            SyncEvent::Finished(Ok(_)) => SyncEventModel::Finished(Ok(())),
            SyncEvent::Finished(Err(error)) => SyncEventModel::Finished(Err(error@)),
        }
    }
}

impl View for SyncMonitor {
    type V = Option<Seq<char>>;

    open spec fn view(&self) -> Option<Seq<char>> {
        self.last_error.deep_view()
    }
}

/// What is remembered after `event`, and what happens next.
pub open spec fn sync_step(last_error: Option<Seq<char>>, event: SyncEventModel) -> (
    Option<Seq<char>>,
    SyncAction,
) {
    match event {
        SyncEventModel::Tick(account) => (
            last_error,
            if spends(account) {
                SyncAction::Sync
            } else {
                SyncAction::Skip
            },
        ),
        SyncEventModel::Finished(Ok(_)) => (None, SyncAction::Wait),
        SyncEventModel::Finished(Err(error)) => (Some(error), SyncAction::Wait),
    }
}

/// What is remembered after `events`, from the start.
pub open spec fn remembered(events: Seq<SyncEventModel>) -> Option<Seq<char>>
    decreases events.len(),
{
    if events.len() == 0 {
        None
    } else {
        sync_step(remembered(events.drop_last()), events.last()).0
    }
}

impl SyncMonitor {
    /// The background sync before its first round.
    pub fn new() -> (monitor: SyncMonitor)
        ensures
            monitor@ is None,
            monitor.last_error is None,
    {
        SyncMonitor { last_error: None }
    }

    /// Takes note of an event and tells what to do next.
    pub fn step(&mut self, event: SyncEvent) -> (action: SyncAction)
        ensures
            (final(self)@, action) == sync_step(old(self)@, event@),
            match event {
                SyncEvent::Tick(account) => {
                    &&& final(self).last_error == old(self).last_error
                    &&& account == Some(KeyStore::Spend) ==> action == SyncAction::Sync
                    &&& account != Some(KeyStore::Spend) ==> action == SyncAction::Skip
                },
                SyncEvent::Finished(Ok(_)) => final(self).last_error is None && action
                    == SyncAction::Wait,
                SyncEvent::Finished(Err(error)) => final(self).last_error == Some(error) && action
                    == SyncAction::Wait,
            },
    {
        match event {
            SyncEvent::Tick(account) => if can_spend(account) {
                SyncAction::Sync
            } else {
                SyncAction::Skip
            },
            SyncEvent::Finished(Ok(_)) => {
                self.last_error = None;
                SyncAction::Wait
            },
            SyncEvent::Finished(Err(error)) => {
                self.last_error = Some(error);
                SyncAction::Wait
            },
        }
    }

    /// How the last sync that was run failed, if it did.
    pub fn last_error(&self) -> (error: Option<String>)
        ensures
            error.deep_view() == self@,
            error.deep_view() == self.last_error.deep_view(),
    {
        match &self.last_error {
            Some(error) => Some(error.clone()),
            None => None,
        }
    }
}

/// After any number of events, the error that is remembered is that of the last
/// sync that ended: none where that sync succeeded, or where none has ended yet.
pub proof fn remembered_is_last_outcome(events: Seq<SyncEventModel>, last: int)
    requires
        -1 <= last < events.len(),
        last >= 0 ==> events[last] is Finished,
        forall|i: int| last < i < events.len() ==> (#[trigger] events[i]) is Tick,
    ensures
        remembered(events) == (if last < 0 {
            None
        } else {
            match events[last]->Finished_0 {
                Ok(_) => None,
                Err(error) => Some(error),
            }
        }),
    decreases events.len(),
{
    if events.len() > 0 && last < events.len() - 1 {
        assert(events.last() is Tick);
        assert(forall|i: int| last < i < events.len() - 1 ==> events.drop_last()[i] == #[trigger] events[i]);
        remembered_is_last_outcome(events.drop_last(), last);
    }
}

/// A sync is run when a round comes up for a wallet that can spend, and at no
/// other time: a wallet that can only view is never synced.
pub proof fn only_spenders_sync(last_error: Option<Seq<char>>, event: SyncEventModel)
    ensures
        sync_step(last_error, event).1 == SyncAction::Sync <==> event == SyncEventModel::Tick(
            Some(KeyStore::Spend),
        ),
{
}

/// A round for a wallet that cannot spend is skipped, and a sync that has ended is
/// followed by waiting. A round alone changes nothing of what is remembered; a sync that
/// ended leaves its own error, or none, whatever was remembered before.
pub proof fn rounds_follow_their_course(last_error: Option<Seq<char>>, event: SyncEventModel)
    ensures
        sync_step(last_error, event).1 == SyncAction::Wait <==> event is Finished,
        sync_step(last_error, event).1 == SyncAction::Skip <==> event is Tick && event->Tick_0
            != Some(KeyStore::Spend),
        event is Tick ==> sync_step(last_error, event).0 == last_error,
        event is Finished && event->Finished_0 is Ok ==> sync_step(last_error, event).0 is None,
        event is Finished && event->Finished_0 is Err ==> sync_step(last_error, event).0 == Some(
            event->Finished_0->Err_0,
        ),
{
}

} // verus!
