use std::str::FromStr;
use server_sent_events::report_status::{ReportStatus, ReportStatusError};

fn valid_status_transition(current: ReportStatus, next: ReportStatus) {
    assert_eq!(current.transition(next), Ok(next));
}

fn invalid_status_transition(current: ReportStatus, next: ReportStatus) {
    assert_eq!(
        current.transition(next),
        Err(ReportStatusError::InvalidStatusTransition {
            current,
            next_status: next
        })
    );
}

#[test]
fn test_pending_transitions() {
    invalid_status_transition(ReportStatus::Pending, ReportStatus::Pending);
    valid_status_transition(ReportStatus::Pending, ReportStatus::Queued);
    invalid_status_transition(ReportStatus::Pending, ReportStatus::Processing);
    valid_status_transition(ReportStatus::Pending, ReportStatus::Canceled);
    invalid_status_transition(ReportStatus::Pending, ReportStatus::Failed);
    invalid_status_transition(ReportStatus::Pending, ReportStatus::Completed);
}

#[test]
fn test_queued_transition() {
    invalid_status_transition(ReportStatus::Queued, ReportStatus::Pending);
    invalid_status_transition(ReportStatus::Queued, ReportStatus::Queued);
    valid_status_transition(ReportStatus::Queued, ReportStatus::Processing);
    valid_status_transition(ReportStatus::Queued, ReportStatus::Canceled);
    invalid_status_transition(ReportStatus::Queued, ReportStatus::Failed);
    invalid_status_transition(ReportStatus::Queued, ReportStatus::Completed);
}

#[test]
fn test_processing_transition() {
    invalid_status_transition(ReportStatus::Processing, ReportStatus::Pending);
    invalid_status_transition(ReportStatus::Processing, ReportStatus::Queued);
    invalid_status_transition(ReportStatus::Processing, ReportStatus::Processing);
    invalid_status_transition(ReportStatus::Processing, ReportStatus::Canceled);
    valid_status_transition(ReportStatus::Processing, ReportStatus::Failed);
    valid_status_transition(ReportStatus::Processing, ReportStatus::Completed);
}

#[test]
fn test_canceled_transition() {
    valid_status_transition(ReportStatus::Canceled, ReportStatus::Pending);
    invalid_status_transition(ReportStatus::Canceled, ReportStatus::Queued);
    invalid_status_transition(ReportStatus::Canceled, ReportStatus::Processing);
    invalid_status_transition(ReportStatus::Canceled, ReportStatus::Canceled);
    invalid_status_transition(ReportStatus::Canceled, ReportStatus::Failed);
    invalid_status_transition(ReportStatus::Canceled, ReportStatus::Completed);
}

#[test]
fn test_failed_transition() {
    valid_status_transition(ReportStatus::Failed, ReportStatus::Pending);
    invalid_status_transition(ReportStatus::Failed, ReportStatus::Queued);
    invalid_status_transition(ReportStatus::Failed, ReportStatus::Processing);
    invalid_status_transition(ReportStatus::Failed, ReportStatus::Canceled);
    invalid_status_transition(ReportStatus::Failed, ReportStatus::Failed);
    invalid_status_transition(ReportStatus::Failed, ReportStatus::Completed);
}

#[test]
fn test_completed_transition() {
    // completed reports cannot transition to any status
    invalid_status_transition(ReportStatus::Completed, ReportStatus::Pending);
    invalid_status_transition(ReportStatus::Completed, ReportStatus::Queued);
    invalid_status_transition(ReportStatus::Completed, ReportStatus::Processing);
    invalid_status_transition(ReportStatus::Completed, ReportStatus::Canceled);
    invalid_status_transition(ReportStatus::Completed, ReportStatus::Failed);
    invalid_status_transition(ReportStatus::Completed, ReportStatus::Completed);
}

const ALL: [ReportStatus; 6] = [
    ReportStatus::Pending,
    ReportStatus::Queued,
    ReportStatus::Processing,
    ReportStatus::Canceled,
    ReportStatus::Failed,
    ReportStatus::Completed,
];

#[test]
fn transition_table_has_exactly_eight_allowed_pairs() {
    let mut allowed = 0;
    for current in ALL {
        for next in ALL {
            match current.transition(next) {
                Ok(s) => {
                    assert_eq!(s, next);
                    allowed += 1;
                }
                Err(e) => assert_eq!(
                    e,
                    ReportStatusError::InvalidStatusTransition {
                        current,
                        next_status: next
                    }
                ),
            }
        }
        assert!(current.transition(current).is_err());
    }
    assert_eq!(allowed, 8);
}

#[test]
fn completed_is_absorbing() {
    for next in ALL {
        assert!(ReportStatus::Completed.transition(next).is_err());
    }
}

#[test]
fn parse_accepts_lower_and_upper_case_names() {
    assert_eq!(ReportStatus::parse("pending"), Ok(ReportStatus::Pending));
    assert_eq!(ReportStatus::parse("QUEUED"), Ok(ReportStatus::Queued));
    assert_eq!(ReportStatus::parse("processing"), Ok(ReportStatus::Processing));
    assert_eq!(ReportStatus::parse("CANCELED"), Ok(ReportStatus::Canceled));
    assert_eq!(ReportStatus::parse("failed"), Ok(ReportStatus::Failed));
    assert_eq!(ReportStatus::parse("COMPLETED"), Ok(ReportStatus::Completed));
    assert_eq!("completed".parse::<ReportStatus>(), Ok(ReportStatus::Completed));
}

#[test]
fn parse_rejects_unknown_literals() {
    assert_eq!(
        ReportStatus::parse("Pending"),
        Err(ReportStatusError::InvalidStatus("Pending".to_owned()))
    );
    assert_eq!(
        ReportStatus::parse(""),
        Err(ReportStatusError::InvalidStatus(String::new()))
    );
}

#[test]
fn as_str_round_trips_through_parse() {
    assert_eq!(ReportStatus::Processing.as_str(), "processing");
    for status in ALL {
        assert_eq!(ReportStatus::parse(status.as_str()), Ok(status));
    }
}

#[test]
fn from_str_matches_exact_names_only() {
    assert_eq!(ReportStatus::from_str("QUEUED"), Ok(ReportStatus::Queued));
    assert_eq!(
        ReportStatus::from_str("queued "),
        Err(ReportStatusError::InvalidStatus("queued ".to_owned()))
    );
    assert_eq!(
        ReportStatus::from_str("Pending"),
        Err(ReportStatusError::InvalidStatus("Pending".to_owned()))
    );
    assert_eq!(ReportStatus::from_str(""), Err(ReportStatusError::InvalidStatus(String::new())));
    for status in ALL {
        assert_eq!(ReportStatus::from_str(status.as_str()), Ok(status));
        assert_eq!(ReportStatus::from_str(&status.as_str().to_ascii_uppercase()), Ok(status));
    }
}
