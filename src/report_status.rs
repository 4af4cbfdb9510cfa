//! The report lifecycle: the statuses a report moves through and the table of
//! transitions between them.

use vstd::prelude::*;

verus! {

/// The lifecycle status of a report.
#[derive(Debug, Clone, Copy, PartialEq, Eq, Structural)]
pub enum ReportStatus {
    Pending,
    Queued,
    Processing,
    Canceled,
    Failed,
    Completed,
}

/// Why an operation on a report's status was rejected.
#[derive(Debug, PartialEq, Eq)]
pub enum ReportStatusError {
    /// Failed to write the new status to the database.
    DatabaseUpdateFailed,
    /// No report with this identifier could be found; carries the identifier
    /// and the status that was requested for it.
    ReportNotFound(u128, ReportStatus),
    /// A status literal that names no status.
    InvalidStatus(String),
    /// The requested status cannot follow the current one.
    InvalidStatusTransition { current: ReportStatus, next_status: ReportStatus },
}

/// The transition table: whether a report in `current` may move to `next`.
pub open spec fn is_valid_transition(current: ReportStatus, next: ReportStatus) -> bool {
    match (current, next) {
        (ReportStatus::Pending, ReportStatus::Queued) => true,
        (ReportStatus::Pending, ReportStatus::Canceled) => true,
        (ReportStatus::Queued, ReportStatus::Processing) => true,
        (ReportStatus::Queued, ReportStatus::Canceled) => true,
        (ReportStatus::Processing, ReportStatus::Failed) => true,
        (ReportStatus::Processing, ReportStatus::Completed) => true,
        (ReportStatus::Canceled, ReportStatus::Pending) => true,
        (ReportStatus::Failed, ReportStatus::Pending) => true,
        _ => false,
    }
}

/// What `transition` returns for the pair `(current, next)`.
pub open spec fn transition_result(current: ReportStatus, next: ReportStatus) -> Result<
    ReportStatus,
    ReportStatusError,
> {
    if is_valid_transition(current, next) {
        Ok(next)
    } else {
        Err(ReportStatusError::InvalidStatusTransition { current, next_status: next })
    }
}

/// The lower-case name of a status, as it is stored and sent.
pub open spec fn status_name(status: ReportStatus) -> Seq<char> {
    match status {
        ReportStatus::Pending => "pending"@,
        ReportStatus::Queued => "queued"@,
        ReportStatus::Processing => "processing"@,
        ReportStatus::Canceled => "canceled"@,
        ReportStatus::Failed => "failed"@,
        ReportStatus::Completed => "completed"@,
    }
}

/// The status that a literal names: its lower-case or its upper-case name.
pub open spec fn status_named(s: Seq<char>) -> Option<ReportStatus> {
    if s == "pending"@ || s == "PENDING"@ {
        Some(ReportStatus::Pending)
    } else if s == "queued"@ || s == "QUEUED"@ {
        Some(ReportStatus::Queued)
    } else if s == "processing"@ || s == "PROCESSING"@ {
        Some(ReportStatus::Processing)
    } else if s == "canceled"@ || s == "CANCELED"@ {
        Some(ReportStatus::Canceled)
    } else if s == "failed"@ || s == "FAILED"@ {
        Some(ReportStatus::Failed)
    } else if s == "completed"@ || s == "COMPLETED"@ {
        Some(ReportStatus::Completed)
    } else {
        None
    }
}

/// Whether two string slices hold the same characters.
fn same_text(a: &str, b: &str) -> (r: bool)
    ensures
        r == (a@ == b@),
{
    a.to_owned() == b.to_owned()
}

impl ReportStatus {
    /// Reads a status from its lower-case or upper-case name.
    pub fn parse(s: &str) -> (r: Result<ReportStatus, ReportStatusError>)
        ensures
            match status_named(s@) {
                Some(status) => r == Ok::<ReportStatus, ReportStatusError>(status),
                None => r matches Err(ReportStatusError::InvalidStatus(t)) && t@ == s@,
            },
    {
        proof {
            reveal_strlit("pending");
        }
        if same_text(s, "pending") || same_text(s, "PENDING") {
            Ok(ReportStatus::Pending)
        } else if same_text(s, "queued") || same_text(s, "QUEUED") {
            Ok(ReportStatus::Queued)
        } else if same_text(s, "processing") || same_text(s, "PROCESSING") {
            Ok(ReportStatus::Processing)
        } else if same_text(s, "canceled") || same_text(s, "CANCELED") {
            Ok(ReportStatus::Canceled)
        } else if same_text(s, "failed") || same_text(s, "FAILED") {
            Ok(ReportStatus::Failed)
        } else if same_text(s, "completed") || same_text(s, "COMPLETED") {
            Ok(ReportStatus::Completed)
        } else {
            Err(ReportStatusError::InvalidStatus(s.to_owned()))
        }
    }

    /// The lower-case name of the status.
    pub fn as_str(&self) -> (r: &'static str)
        ensures
            r@ == status_name(*self),
    {
        match self {
            ReportStatus::Pending => "pending",
            ReportStatus::Queued => "queued",
            ReportStatus::Processing => "processing",
            ReportStatus::Canceled => "canceled",
            ReportStatus::Failed => "failed",
            ReportStatus::Completed => "completed",
        }
    }

    /// Moves from `self` to `next_status` if the transition table allows it.
    pub fn transition(self, next_status: ReportStatus) -> (r: Result<ReportStatus, ReportStatusError>)
        ensures
            r == transition_result(self, next_status),
    {
        match (self, next_status) {
            (ReportStatus::Pending, ReportStatus::Queued) => Ok(ReportStatus::Queued),
            (ReportStatus::Pending, ReportStatus::Canceled) => Ok(ReportStatus::Canceled),
            (ReportStatus::Queued, ReportStatus::Processing) => Ok(ReportStatus::Processing),
            (ReportStatus::Queued, ReportStatus::Canceled) => Ok(ReportStatus::Canceled),
            (ReportStatus::Processing, ReportStatus::Failed) => Ok(ReportStatus::Failed),
            (ReportStatus::Processing, ReportStatus::Completed) => Ok(ReportStatus::Completed),
            (ReportStatus::Canceled, ReportStatus::Pending) => Ok(ReportStatus::Pending),
            (ReportStatus::Failed, ReportStatus::Pending) => Ok(ReportStatus::Pending),
            _ => Err(ReportStatusError::InvalidStatusTransition { current: self, next_status }),
        }
    }
}

impl std::str::FromStr for ReportStatus {
    type Err = ReportStatusError;

    /// Reads a status from its lower-case or upper-case name.
    fn from_str(s: &str) -> (r: Result<ReportStatus, ReportStatusError>)
        ensures
            match status_named(s@) {
                Some(status) => r == Ok::<ReportStatus, ReportStatusError>(status),
                None => r matches Err(ReportStatusError::InvalidStatus(t)) && t@ == s@,
            },
    {
        ReportStatus::parse(s)
    }
}

/// A completed report is terminal: no transition leaves `Completed`.
pub proof fn lemma_completed_is_terminal(next: ReportStatus)
    ensures
        !is_valid_transition(ReportStatus::Completed, next),
        transition_result(ReportStatus::Completed, next) == Err::<ReportStatus, ReportStatusError>(
            ReportStatusError::InvalidStatusTransition {
                current: ReportStatus::Completed,
                next_status: next,
            },
        ),
{
}

} // verus!
