//! The event actor: the single owner of the status cache and the connection
//! registry, which applies every event in arrival order.
//!
//! Handling an event may need storage. The actor then answers with an
//! [`ActorStep`] naming the storage operation, and the loop that drives it
//! performs the operation and hands the outcome back to the matching
//! `resume_*` method.

use vstd::prelude::*;

use crate::app_events::{AppEvent, Report, ReportStatusUpdate, ServerSentEventMessage};
use crate::connection_registry::ConnectionRegistry;
use crate::report_status::{is_valid_transition, ReportStatus, ReportStatusError};
use crate::status_cache::{
    after_get, after_push, cache_lookup, cache_wf, lemma_lookup_after_get, lemma_lookup_after_push,
    StatusCache, DEFAULT_CAPACITY,
};

verus! {

/// A storage operation failed.
#[derive(Debug, Clone, Copy, PartialEq, Eq, Structural)]
pub struct StorageError;

/// What the driving loop does next for the event at hand.
#[derive(Debug, PartialEq, Eq)]
pub enum ActorStep {
    /// The event is fully handled.
    Done,
    /// Store this new report; a failure is logged and otherwise ignored.
    InsertReport(Report),
    /// Read the report's stored status, then call `resume_after_status_lookup`.
    FetchStatus(ReportStatusUpdate),
    /// Write the new status to storage, then call `resume_after_status_write`.
    WriteStatus(ReportStatusUpdate),
    /// Push the status change to the owner's session channel, without waiting;
    /// a failed send is dropped.
    Deliver { owner: u128, update: ReportStatusUpdate },
    /// The event was rejected.
    Failed(ReportStatusError),
}

/// The decision on a status update request, given the report's current status.
pub open spec fn decide_update(current: Option<ReportStatus>, update: ReportStatusUpdate) -> ActorStep {
    match current {
        None => ActorStep::Failed(ReportStatusError::ReportNotFound(update.id, update.status)),
        Some(cur) => if is_valid_transition(cur, update.status) {
            ActorStep::WriteStatus(update)
        } else {
            ActorStep::Failed(
                ReportStatusError::InvalidStatusTransition { current: cur, next_status: update.status },
            )
        },
    }
}

/// The cache after warming it with `reports`, in order.
pub open spec fn after_warm(
    s: Seq<(u128, (u128, ReportStatus))>,
    cap: nat,
    reports: Seq<Report>,
) -> Seq<(u128, (u128, ReportStatus))>
    decreases reports.len(),
{
    if reports.len() == 0 {
        s
    } else {
        let r = reports.last();
        after_push(
            after_warm(s, cap, reports.drop_last()),
            cap,
            r.report_id,
            (r.user_id, r.report_status),
        )
    }
}

/// The owner of the status cache and the connection registry. `C` is the
/// delivery channel of a live session.
pub struct EventActor<C> {
    cache: StatusCache,
    registry: ConnectionRegistry<C>,
}

impl<C> EventActor<C> {
    /// The cached entries, from least to most recently used.
    pub closed spec fn cached(&self) -> Seq<(u128, (u128, ReportStatus))> {
        self.cache@
    }

    /// The capacity of the cache.
    pub closed spec fn capacity(&self) -> nat {
        self.cache.capacity()
    }

    /// The registered sessions.
    pub closed spec fn sessions(&self) -> Map<u128, C> {
        self.registry@
    }

    /// The cache is well formed: within capacity, each report at most once.
    pub open spec fn wf(&self) -> bool {
        cache_wf(self.cached(), self.capacity())
    }

    /// An actor with an empty cache of the default capacity and no sessions.
    pub fn new() -> (r: EventActor<C>)
        ensures
            r.wf(),
            r.cached() == Seq::<(u128, (u128, ReportStatus))>::empty(),
            r.capacity() == DEFAULT_CAPACITY,
            r.sessions() == Map::<u128, C>::empty(),
    {
        EventActor::with_capacity(DEFAULT_CAPACITY)
    }

    /// An actor with an empty cache of `capacity` entries and no sessions.
    pub fn with_capacity(capacity: usize) -> (r: EventActor<C>)
        requires
            capacity > 0,
        ensures
            r.wf(),
            r.cached() == Seq::<(u128, (u128, ReportStatus))>::empty(),
            r.capacity() == capacity,
            r.sessions() == Map::<u128, C>::empty(),
    {
        EventActor { cache: StatusCache::new(capacity), registry: ConnectionRegistry::new() }
    }

    /// The delivery channel of `user_id`'s session, if one is registered.
    pub fn session(&self, user_id: u128) -> (r: Option<&C>)
        ensures
            match r {
                Some(c) => self.sessions().contains_key(user_id) && *c == self.sessions()[user_id],
                None => !self.sessions().contains_key(user_id),
            },
    {
        self.registry.lookup(user_id)
    }

    /// The (owner, status) cached for `report_id`; a hit becomes the most
    /// recently used entry.
    pub fn cached_status(&mut self, report_id: u128) -> (r: Option<(u128, ReportStatus)>)
        requires
            old(self).wf(),
        ensures
            final(self).wf(),
            r == cache_lookup(old(self).cached(), report_id),
            final(self).cached() == after_get(old(self).cached(), report_id),
            final(self).capacity() == old(self).capacity(),
            final(self).sessions() == old(self).sessions(),
    {
        self.cache.get(report_id)
    }

    /// Puts each report into the cache, in order.
    fn warm_cache(&mut self, reports: Vec<Report>)
        requires
            old(self).wf(),
        ensures
            final(self).wf(),
            final(self).cached() == after_warm(old(self).cached(), old(self).capacity(), reports@),
            final(self).capacity() == old(self).capacity(),
            final(self).sessions() == old(self).sessions(),
    {
        let ghost start = self.cached();
        let mut i: usize = 0;
        while i < reports.len()
            invariant
                self.wf(),
                i <= reports.len(),
                self.cached() == after_warm(start, self.capacity(), reports@.subrange(0, i as int)),
                self.capacity() == old(self).capacity(),
                self.sessions() == old(self).sessions(),
                start == old(self).cached(),
            decreases reports.len() - i,
        {
            let report = reports[i];
            self.cache.put(report.report_id, report.user_id, report.report_status);
            proof {
                assert(reports@.subrange(0, i + 1).drop_last() =~= reports@.subrange(0, i as int));
            }
            i = i + 1;
        }
        proof {
            assert(reports@.subrange(0, reports.len() as int) =~= reports@);
        }
    }

    /// Applies one event. Sessions are registered and forgotten, reports are
    /// cached, and a status update request is decided from the cache, or sent
    /// on to storage when the cache does not know the report.
    pub fn handle_event(&mut self, event: AppEvent<C>) -> (step: ActorStep)
        requires
            old(self).wf(),
        ensures
            final(self).wf(),
            final(self).capacity() == old(self).capacity(),
            match event {
                AppEvent::UserConnected { user_id, sender } => {
                    &&& final(self).sessions() == old(self).sessions().insert(user_id, sender)
                    &&& final(self).cached() == old(self).cached()
                    &&& step == ActorStep::Done
                },
                AppEvent::UserDisconnected { user_id } => {
                    &&& final(self).sessions() == old(self).sessions().remove(user_id)
                    &&& final(self).cached() == old(self).cached()
                    &&& step == ActorStep::Done
                },
                AppEvent::CacheReports(reports) => {
                    &&& final(self).sessions() == old(self).sessions()
                    &&& final(self).cached() == after_warm(
                        old(self).cached(),
                        old(self).capacity(),
                        reports@,
                    )
                    &&& step == ActorStep::Done
                },
                AppEvent::UserMessage(ServerSentEventMessage::NewReport(report)) => {
                    &&& final(self).sessions() == old(self).sessions()
                    &&& final(self).cached() == after_push(
                        old(self).cached(),
                        old(self).capacity(),
                        report.report_id,
                        (report.user_id, report.report_status),
                    )
                    &&& step == ActorStep::InsertReport(report)
                },
                AppEvent::UserMessage(ServerSentEventMessage::ReportStatusUpdate(update)) => {
                    &&& final(self).sessions() == old(self).sessions()
                    &&& final(self).cached() == after_get(old(self).cached(), update.id)
                    &&& step == match cache_lookup(old(self).cached(), update.id) {
                        Some(entry) => decide_update(Some(entry.1), update),
                        None => ActorStep::FetchStatus(update),
                    }
                },
            },
    {
        match event {
            AppEvent::UserConnected { user_id, sender } => {
                self.registry.register(user_id, sender);
                ActorStep::Done
            },
            AppEvent::UserDisconnected { user_id } => {
                self.registry.deregister(user_id);
                ActorStep::Done
            },
            AppEvent::CacheReports(reports) => {
                self.warm_cache(reports);
                ActorStep::Done
            },
            AppEvent::UserMessage(ServerSentEventMessage::NewReport(report)) => {
                self.cache.put(report.report_id, report.user_id, report.report_status);
                ActorStep::InsertReport(report)
            },
            AppEvent::UserMessage(ServerSentEventMessage::ReportStatusUpdate(update)) => {
                match self.cache.get(update.id) {
                    Some((_, current)) => decide_status_update(Some(current), update),
                    None => ActorStep::FetchStatus(update),
                }
            },
        }
    }

    /// Continues a status update after storage was asked for the report's
    /// status; a failed lookup counts as a report that was not found.
    pub fn resume_after_status_lookup(
        &self,
        update: ReportStatusUpdate,
        stored: Result<Option<ReportStatus>, StorageError>,
    ) -> (step: ActorStep)
        ensures
            step == decide_update(
                match stored {
                    Ok(s) => s,
                    Err(_) => None,
                },
                update,
            ),
    {
        let current = match stored {
            Ok(s) => s,
            Err(_) => None,
        };
        decide_status_update(current, update)
    }

    /// Completes a status update after storage was asked to write it. On a
    /// failed write nothing changes. When storage names the owner, the cache
    /// records the new status, and the owner's session, if any, is to be told.
    pub fn resume_after_status_write(
        &mut self,
        update: ReportStatusUpdate,
        written: Result<Option<u128>, StorageError>,
    ) -> (step: ActorStep)
        requires
            old(self).wf(),
        ensures
            final(self).wf(),
            final(self).capacity() == old(self).capacity(),
            final(self).sessions() == old(self).sessions(),
            match written {
                Err(_) => {
                    &&& final(self).cached() == old(self).cached()
                    &&& step == ActorStep::Failed(ReportStatusError::DatabaseUpdateFailed)
                },
                Ok(None) => {
                    &&& final(self).cached() == old(self).cached()
                    &&& step == ActorStep::Done
                },
                Ok(Some(owner)) => {
                    &&& final(self).cached() == after_push(
                        old(self).cached(),
                        old(self).capacity(),
                        update.id,
                        (owner, update.status),
                    )
                    &&& step == if old(self).sessions().contains_key(owner) {
                        ActorStep::Deliver { owner, update }
                    } else {
                        ActorStep::Done
                    }
                },
            },
    {
        match written {
            Err(_) => ActorStep::Failed(ReportStatusError::DatabaseUpdateFailed),
            Ok(None) => ActorStep::Done,
            Ok(Some(owner)) => {
                self.cache.put(update.id, owner, update.status);
                if self.registry.is_connected(owner) {
                    ActorStep::Deliver { owner, update }
                } else {
                    ActorStep::Done
                }
            },
        }
    }
}

/// A freshly created report can be queued: once it is cached as `Pending`, a
/// request for `Queued` finds it in the cache and is sent on to storage, and
/// when storage confirms the owner, the cache holds `(owner, Queued)` and a
/// registered owner is to be told.
pub proof fn lemma_created_report_can_be_queued<C>(
    cached: Seq<(u128, (u128, ReportStatus))>,
    capacity: nat,
    sessions: Map<u128, C>,
    report: Report,
    owner: u128,
)
    requires
        cache_wf(cached, capacity),
        report.report_status == ReportStatus::Pending,
    ensures
        ({
            let created = after_push(
                cached,
                capacity,
                report.report_id,
                (report.user_id, report.report_status),
            );
            let update = ReportStatusUpdate { id: report.report_id, status: ReportStatus::Queued };
            let looked_up = after_get(created, report.report_id);
            let written = after_push(looked_up, capacity, report.report_id, (owner, ReportStatus::Queued));
            &&& cache_lookup(created, report.report_id) == Some((report.user_id, ReportStatus::Pending))
            &&& decide_update(Some(ReportStatus::Pending), update) == ActorStep::WriteStatus(update)
            &&& cache_lookup(written, report.report_id) == Some((owner, ReportStatus::Queued))
            &&& cache_wf(written, capacity)
        }),
{
    let created = after_push(cached, capacity, report.report_id, (report.user_id, report.report_status));
    lemma_lookup_after_push(cached, capacity, report.report_id, (report.user_id, report.report_status));
    lemma_lookup_after_get(created, capacity, report.report_id);
    let looked_up = after_get(created, report.report_id);
    lemma_lookup_after_push(looked_up, capacity, report.report_id, (owner, ReportStatus::Queued));
}

/// A pending report cannot skip `Queued`: a request for `Processing` is
/// rejected with the pair it asked for, storage is not written, and the cache
/// still holds the report as `Pending`.
pub proof fn lemma_pending_cannot_skip_queued(
    cached: Seq<(u128, (u128, ReportStatus))>,
    capacity: nat,
    report_id: u128,
    owner: u128,
)
    requires
        cache_wf(cached, capacity),
        cache_lookup(cached, report_id) == Some((owner, ReportStatus::Pending)),
    ensures
        ({
            let update = ReportStatusUpdate { id: report_id, status: ReportStatus::Processing };
            &&& decide_update(Some(ReportStatus::Pending), update) == ActorStep::Failed(
                ReportStatusError::InvalidStatusTransition {
                    current: ReportStatus::Pending,
                    next_status: ReportStatus::Processing,
                },
            )
            &&& cache_lookup(after_get(cached, report_id), report_id) == Some(
                (owner, ReportStatus::Pending),
            )
        }),
{
    lemma_lookup_after_get(cached, capacity, report_id);
}

/// Decides a status update request from the report's current status: an
/// unknown report is not found, a transition outside the table is rejected,
/// and an allowed one is to be written to storage.
pub fn decide_status_update(current: Option<ReportStatus>, update: ReportStatusUpdate) -> (step:
    ActorStep)
    ensures
        step == decide_update(current, update),
{
    match current {
        None => ActorStep::Failed(ReportStatusError::ReportNotFound(update.id, update.status)),
        Some(cur) => match cur.transition(update.status) {
            Ok(_) => ActorStep::WriteStatus(update),
            Err(e) => ActorStep::Failed(e),
        },
    }
}

} // verus!
