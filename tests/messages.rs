use server_sent_events::app_events::ReportStatusUpdate;
use server_sent_events::chat_message::parse_username_and_message_from_bytes;
use server_sent_events::message_bus::{on_bus_receipt, BusAction, BusReceipt};
use server_sent_events::report_status::ReportStatus;

#[test]
fn splits_at_first_colon() {
    assert_eq!(
        parse_username_and_message_from_bytes(b"alice:hi: there"),
        Some(("alice".to_owned(), "hi: there".to_owned()))
    );
    assert_eq!(
        parse_username_and_message_from_bytes(b":"),
        Some((String::new(), String::new()))
    );
    assert_eq!(
        parse_username_and_message_from_bytes("j\u{e9}r\u{f4}me:caf\u{e9}".as_bytes()),
        Some(("j\u{e9}r\u{f4}me".to_owned(), "caf\u{e9}".to_owned()))
    );
}

#[test]
fn rejects_missing_colon_or_bad_utf8() {
    assert_eq!(parse_username_and_message_from_bytes(b"no colon"), None);
    assert_eq!(parse_username_and_message_from_bytes(b""), None);
    assert_eq!(parse_username_and_message_from_bytes(&[0xff, b':', b'a']), None);
    assert_eq!(parse_username_and_message_from_bytes(&[b'a', b':', 0xc3]), None);
}

#[test]
fn bus_receipts_map_to_actions() {
    let u = ReportStatusUpdate { id: 3, status: ReportStatus::Completed };
    assert_eq!(on_bus_receipt(BusReceipt::Record(Some(u))), BusAction::Forward(u));
    assert_eq!(on_bus_receipt(BusReceipt::Record(None)), BusAction::Skip);
    assert_eq!(on_bus_receipt(BusReceipt::OtherError), BusAction::Skip);
    assert_eq!(on_bus_receipt(BusReceipt::AllBrokersDown), BusAction::Halt);
}
