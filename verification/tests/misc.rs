use tuiserial::buffer::RxBuffer;
use tuiserial::log::{LogDirection, LogEntry, MessageLog, MAX_LOG_LINES};
use tuiserial::notification::{Notification, NotificationLevel};
use tuiserial::selection::{
    position_of_flow_control, position_of_parity, position_of_u32, position_of_u8,
    ListSelection,
};
use tuiserial::text::{chars_of, decimal_string, string_of};
use tuiserial::types::{FlowControl, Parity};

#[test]
fn notifications_carry_level_and_duration() {
    let n = Notification::new("m".to_string(), NotificationLevel::Error);
    assert_eq!(n.message, "m");
    assert_eq!(n.level, NotificationLevel::Error);
    assert_eq!(n.duration_ms, 3000);
    assert!(!n.is_expired());
    assert_eq!(Notification::info("a".to_string()).level, NotificationLevel::Info);
    assert_eq!(Notification::warning("a".to_string()).level, NotificationLevel::Warning);
    assert_eq!(Notification::error("a".to_string()).level, NotificationLevel::Error);
    assert_eq!(Notification::success("a".to_string()).level, NotificationLevel::Success);
    assert_eq!(Notification::success("text".to_string()).message, "text");
}

#[test]
fn a_notification_expires_when_its_age_exceeds_its_duration() {
    let mut n = Notification::info("m".to_string());
    assert!(!n.is_expired_after(0));
    assert!(!n.is_expired_after(3000));
    assert!(n.is_expired_after(3001));
    n.duration_ms = 0;
    assert!(!n.is_expired_after(0));
    assert!(n.is_expired_after(1));
    n.duration_ms = u64::MAX;
    assert!(!n.is_expired_after(u64::MAX));
    assert_eq!(n.remaining_ms_after(1), u64::MAX - 1);
    n.duration_ms = 3000;
    assert_eq!(n.remaining_ms_after(1200), 1800);
    assert_eq!(n.remaining_ms_after(3000), 0);
    assert_eq!(n.remaining_ms_after(9000), 0);
    n.duration_ms = u64::MAX;
    assert!(!n.is_expired());
    n.duration_ms = 0;
    let start = std::time::Instant::now();
    while start.elapsed().as_millis() < 3 {}
    assert!(n.created_at.elapsed().as_millis() >= 3);
    assert_eq!(n.remaining_ms_after(0), 0);
    assert!(n.is_expired());
    let copy = n.clone();
    assert_eq!(copy.message, "m");
    assert_eq!(copy.created_at, n.created_at);
    assert_eq!(copy.duration_ms, 0);
}

#[test]
fn the_log_counts_and_keeps_order() {
    let mut log = MessageLog::new();
    assert_eq!(log.len(), 0);
    log.push_rx(vec![1, 2]);
    log.push_tx(vec![3]);
    log.push_rx(vec![]);
    assert_eq!(log.len(), 3);
    assert_eq!(log.rx_count, 2);
    assert_eq!(log.tx_count, 1);
    let got: Vec<(LogDirection, Vec<u8>)> =
        log.entries.iter().map(|e| (e.direction, e.data.clone())).collect();
    assert_eq!(
        got,
        vec![
            (LogDirection::Rx, vec![1, 2]),
            (LogDirection::Tx, vec![3]),
            (LogDirection::Rx, vec![]),
        ]
    );
    assert!(log.entries[0].timestamp <= log.entries[2].timestamp);
    assert!(log.entries[0].timestamp > 1_600_000_000_000);
    log.clear();
    assert_eq!(log.len(), 0);
    assert_eq!(log.rx_count, 0);
    assert_eq!(log.tx_count, 0);
    let d = MessageLog::default();
    assert_eq!(d.len(), 0);
    let e = LogEntry::new(LogDirection::Tx, vec![5]);
    let c = e.clone();
    assert_eq!(c.timestamp, e.timestamp);
    assert_eq!(c.direction, LogDirection::Tx);
    assert_eq!(c.data, vec![5]);
}

#[test]
fn a_full_log_drops_its_oldest_entry() {
    let mut log = MessageLog::new();
    for i in 0..MAX_LOG_LINES {
        log.push_rx(vec![(i % 256) as u8, (i / 256) as u8]);
    }
    assert_eq!(MAX_LOG_LINES, 10000);
    assert_eq!(log.len(), 10000);
    assert_eq!(log.entries[0].data, vec![0, 0]);
    log.push_tx(vec![0xAA]);
    assert_eq!(log.len(), 10000);
    assert_eq!(log.entries[0].data, vec![1, 0]);
    assert_eq!(log.entries[9999].data, vec![0xAA]);
    assert_eq!(log.entries[9998].data, vec![(9999 % 256) as u8, (9999 / 256) as u8]);
    assert_eq!(log.rx_count, 10000);
    assert_eq!(log.tx_count, 1);
}

#[test]
fn the_byte_buffer_is_a_bounded_queue() {
    let mut buffer = RxBuffer::new();
    assert!(buffer.is_empty());
    assert_eq!(buffer.len(), 0);
    assert_eq!(buffer.rx_count(), 0);
    assert_eq!(buffer.as_slice(), &[] as &[u8]);
    buffer.push(7);
    buffer.extend(&[8, 9]);
    buffer.extend(&[]);
    assert!(!buffer.is_empty());
    assert_eq!(buffer.len(), 3);
    assert_eq!(buffer.rx_count(), 3);
    assert_eq!(buffer.as_slice(), &[7, 8, 9]);
    buffer.clear();
    assert!(buffer.is_empty());
    assert_eq!(buffer.rx_count(), 3);
    let many: Vec<u8> = (0..10050u32).map(|i| (i % 251) as u8).collect();
    buffer.extend(&many);
    assert_eq!(buffer.len(), 10000);
    assert_eq!(buffer.rx_count(), 10053);
    // The front run starts with the oldest byte that is left.
    let run = buffer.as_slice();
    assert!(!run.is_empty());
    assert!(run.len() <= 10000);
    for (i, b) in run.iter().enumerate() {
        assert_eq!(*b, ((i as u32 + 50) % 251) as u8);
    }
}

#[test]
fn list_selection() {
    let mut s = ListSelection::default();
    assert_eq!(s, ListSelection { offset: 0, selected: None });
    s.select(Some(3));
    assert_eq!(s.selected(), Some(3));
    s.offset = 2;
    s.select(Some(4));
    assert_eq!(s, ListSelection { offset: 2, selected: Some(4) });
    // Clearing the selection scrolls back to the top.
    s.select(None);
    assert_eq!(s, ListSelection { offset: 0, selected: None });
    assert_eq!(ListSelection::starting_at(Some(1)), ListSelection { offset: 0, selected: Some(1) });
    let t = ListSelection { offset: 5, selected: Some(2) };
    assert_eq!(t.moved_to(None), t);
    assert_eq!(t.moved_to(Some(9)), ListSelection { offset: 5, selected: Some(9) });
}

#[test]
fn positions_are_first_positions() {
    assert_eq!(position_of_u32(&[5, 7, 5, 7], 7), Some(1));
    assert_eq!(position_of_u32(&[5, 7, 5, 7], 5), Some(0));
    assert_eq!(position_of_u32(&[5, 7], 6), None);
    assert_eq!(position_of_u32(&[], 6), None);
    assert_eq!(position_of_u8(&[1, 2, 2], 2), Some(1));
    assert_eq!(position_of_u8(&[1, 2, 2], 3), None);
    assert_eq!(position_of_parity(&[Parity::Odd, Parity::Off, Parity::Odd], Parity::Off), Some(1));
    assert_eq!(position_of_parity(&[Parity::Odd], Parity::Even), None);
    assert_eq!(
        position_of_flow_control(
            &[FlowControl::Off, FlowControl::Software, FlowControl::Software],
            FlowControl::Software
        ),
        Some(1)
    );
    assert_eq!(position_of_flow_control(&[], FlowControl::Off), None);
}

#[test]
fn text_helpers() {
    assert_eq!(chars_of("aé世"), vec!['a', 'é', '世']);
    assert_eq!(chars_of(""), Vec::<char>::new());
    assert_eq!(string_of(&['x', '×', 'y']), "x×y");
    assert_eq!(string_of(&[]), "");
    assert_eq!(decimal_string(0), "0");
    assert_eq!(decimal_string(9), "9");
    assert_eq!(decimal_string(10), "10");
    assert_eq!(decimal_string(9600), "9600");
    assert_eq!(decimal_string(1000000007), "1000000007");
    assert_eq!(decimal_string(u64::MAX), "18446744073709551615");
}
