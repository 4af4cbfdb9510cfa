//! Decisions of the message bus consumer: which received records become
//! status update requests for the actor, and when consuming stops.

use vstd::prelude::*;

use crate::app_events::ReportStatusUpdate;

verus! {

/// What one receive on the bus consumer produced.
#[derive(Debug, Clone, Copy, PartialEq, Eq, Structural)]
pub enum BusReceipt {
    /// A record, with its payload decoded as a status update request; `None`
    /// when it had no payload or the payload was malformed.
    Record(Option<ReportStatusUpdate>),
    /// Every broker is unreachable.
    AllBrokersDown,
    /// Any other consumer error.
    OtherError,
}

/// What the consumer does with a receipt.
#[derive(Debug, Clone, Copy, PartialEq, Eq, Structural)]
pub enum BusAction {
    /// Hand the request to the actor as a status update event.
    Forward(ReportStatusUpdate),
    /// Log and go on with the next record.
    Skip,
    /// Stop consuming for good.
    Halt,
}

/// Decoded requests are forwarded, malformed records and passing errors are
/// skipped, and unreachable brokers stop the consumer.
pub fn on_bus_receipt(receipt: BusReceipt) -> (action: BusAction)
    ensures
        action == match receipt {
            BusReceipt::Record(Some(update)) => BusAction::Forward(update),
            BusReceipt::Record(None) => BusAction::Skip,
            BusReceipt::AllBrokersDown => BusAction::Halt,
            BusReceipt::OtherError => BusAction::Skip,
        },
{
    match receipt {
        BusReceipt::Record(Some(update)) => BusAction::Forward(update),
        BusReceipt::Record(None) => BusAction::Skip,
        BusReceipt::AllBrokersDown => BusAction::Halt,
        BusReceipt::OtherError => BusAction::Skip,
    }
}

} // verus!
