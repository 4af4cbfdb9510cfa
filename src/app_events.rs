//! Reports, status update requests, and the events the actor consumes.

use vstd::prelude::*;

use crate::report_status::ReportStatus;

verus! {

/// A request to move a report to a new status.
#[derive(Debug, Clone, Copy, PartialEq, Eq, Structural)]
pub struct ReportStatusUpdate {
    pub id: u128,
    pub status: ReportStatus,
}

/// A report: its owner, its identifier and its lifecycle status.
#[derive(Debug, Clone, Copy, PartialEq, Eq, Structural)]
pub struct Report {
    pub user_id: u128,
    pub report_id: u128,
    pub report_status: ReportStatus,
}

/// The bits of a UUID's 128-bit value that hold its version and variant.
pub const UUID_VERSION_VARIANT_MASK: u128 = 0xF000C000000000000000;

/// Those bits in a random (version 4, RFC 4122 variant) UUID.
pub const UUID_V4_BITS: u128 = 0x40008000000000000000;

/// Relies on uuid::Uuid::new_v4: a random identifier, as its 128-bit value, with
/// the version-4 and RFC 4122 variant bits set.
#[verifier::external_body]
fn fresh_report_id() -> (r: u128)
    ensures
        r & UUID_VERSION_VARIANT_MASK == UUID_V4_BITS,
{
    uuid::Uuid::new_v4().as_u128()
}

impl ReportStatusUpdate {
    /// The report that this update describes, owned by `user_id`.
    pub fn into_report(self, user_id: u128) -> (r: Report)
        ensures
            r == (Report { user_id, report_id: self.id, report_status: self.status }),
    {
        Report { user_id, report_id: self.id, report_status: self.status }
    }
}

impl Report {
    /// A new pending report for `user_id`, under a fresh random version-4 identifier.
    pub fn new(user_id: u128) -> (r: Report)
        ensures
            r.user_id == user_id,
            r.report_id & UUID_VERSION_VARIANT_MASK == UUID_V4_BITS,
            r.report_status == ReportStatus::Pending,
    {
        Report::with_all_details(user_id, fresh_report_id(), ReportStatus::Pending)
    }

    pub fn with_all_details(user_id: u128, report_id: u128, report_status: ReportStatus) -> (r:
        Report)
        ensures
            r == (Report { user_id, report_id, report_status }),
    {
        Report { user_id, report_id, report_status }
    }
}

/// What is pushed to a live session, or handed to the actor as a report event.
#[derive(Debug, Clone, Copy, PartialEq, Eq, Structural)]
pub enum ServerSentEventMessage {
    ReportStatusUpdate(ReportStatusUpdate),
    NewReport(Report),
}

/// An event for the actor. `C` is the delivery channel of a live session.
pub enum AppEvent<C> {
    /// A session for `user_id` opened, with its delivery channel.
    UserConnected { user_id: u128, sender: C },
    /// A report was created, or a status change was requested.
    UserMessage(ServerSentEventMessage),
    /// The session of `user_id` closed.
    UserDisconnected { user_id: u128 },
    /// Reports read from storage, to be put into the cache.
    CacheReports(Vec<Report>),
}

impl<C> AppEvent<C> {
    pub fn report_status_update_message(report_status: ReportStatusUpdate) -> (r: AppEvent<C>)
        ensures
            r == AppEvent::<C>::UserMessage(
                ServerSentEventMessage::ReportStatusUpdate(report_status),
            ),
    {
        AppEvent::UserMessage(ServerSentEventMessage::ReportStatusUpdate(report_status))
    }

    pub fn new_report(new_report: Report) -> (r: AppEvent<C>)
        ensures
            r == AppEvent::<C>::UserMessage(ServerSentEventMessage::NewReport(new_report)),
    {
        AppEvent::UserMessage(ServerSentEventMessage::NewReport(new_report))
    }

    pub fn cache_reports(reports: Vec<Report>) -> (r: AppEvent<C>)
        ensures
            r == AppEvent::<C>::CacheReports(reports),
    {
        AppEvent::CacheReports(reports)
    }
}

} // verus!
