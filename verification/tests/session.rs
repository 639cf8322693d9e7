use tuiserial::notification::{Notification, NotificationLevel};
use tuiserial::selection::ListSelection;
use tuiserial::session::{SerialSession, SessionManager};
use tuiserial::types::{
    AppendMode, DisplayMode, FlowControl, FocusedField, Parity, TxMode,
};

fn names(store: &SessionManager) -> Vec<String> {
    store.sessions().iter().map(|s| s.name.clone()).collect()
}

fn ids(store: &SessionManager) -> Vec<usize> {
    store.sessions().iter().map(|s| s.id).collect()
}

fn wait_a_little() {
    let start = std::time::Instant::now();
    while start.elapsed().as_millis() < 3 {}
}

#[test]
fn fresh_store_has_one_session() {
    let store = SessionManager::new();
    assert_eq!(store.len(), 1);
    assert!(!store.is_empty());
    assert_eq!(store.active_index(), 0);
    assert_eq!(store.next_id(), 1);
    let session = store.active_session();
    assert_eq!(session.id, 0);
    assert_eq!(session.name, "Session 1");
    let d = SessionManager::default();
    assert_eq!(names(&d), vec!["Session 1"]);
}

#[test]
fn add_without_name_uses_the_default_name() {
    let mut store = SessionManager::new();
    let index = store.add_session(None);
    assert_eq!(index, 1);
    assert_eq!(store.len(), 2);
    assert_eq!(store.get_session(1).unwrap().name, "Session 2");
    assert_eq!(store.get_session(1).unwrap().id, 1);
    // Adding does not move the active session.
    assert_eq!(store.active_index(), 0);
}

#[test]
fn removing_the_only_session_is_refused() {
    let mut store = SessionManager::new();
    assert!(store.remove_session(0).is_none());
    assert_eq!(store.len(), 1);
    assert_eq!(store.active_index(), 0);
    assert_eq!(ids(&store), vec![0]);
    assert_eq!(names(&store), vec!["Session 1"]);
    assert_eq!(store.next_id(), 1);
}

#[test]
fn removing_before_the_active_session_moves_the_index_down() {
    let mut store = SessionManager::new();
    store.add_session(None);
    store.add_session(None);
    assert!(store.switch_to(2));
    assert_eq!(store.active_index(), 2);
    let removed = store.remove_session(0).unwrap();
    assert_eq!(removed.id, 0);
    assert_eq!(store.active_index(), 1);
    assert_eq!(store.active_session().id, 2);
    assert_eq!(ids(&store), vec![1, 2]);
}

#[test]
fn removing_the_active_session_keeps_the_index_or_takes_the_last() {
    let mut store = SessionManager::new();
    store.add_session(None);
    store.add_session(None);
    assert!(store.switch_to(1));
    // The session that takes the place of the removed one becomes active.
    assert_eq!(store.remove_session(1).unwrap().id, 1);
    assert_eq!(store.active_index(), 1);
    assert_eq!(store.active_session().id, 2);
    // The active session was the last one: the new last one is active.
    assert_eq!(store.remove_session(1).unwrap().id, 2);
    assert_eq!(store.active_index(), 0);
    assert_eq!(store.active_session().id, 0);
}

#[test]
fn removing_behind_the_active_session_changes_nothing_else() {
    let mut store = SessionManager::new();
    store.add_session(None);
    store.add_session(None);
    assert!(store.switch_to(1));
    assert_eq!(store.remove_session(2).unwrap().id, 2);
    assert_eq!(store.active_index(), 1);
    assert!(store.remove_session(2).is_none());
    assert!(store.remove_session(usize::MAX).is_none());
    assert_eq!(ids(&store), vec![0, 1]);
}

#[test]
fn identifiers_are_never_reused() {
    let mut store = SessionManager::new();
    store.add_session(None);
    store.remove_session(1);
    let index = store.add_session(None);
    assert_eq!(index, 1);
    assert_eq!(store.get_session(1).unwrap().id, 2);
    assert_eq!(store.get_session(1).unwrap().name, "Session 3");
    store.remove_session(0);
    store.add_session(Some("named".to_string()));
    assert_eq!(ids(&store), vec![2, 3]);
    assert_eq!(names(&store), vec!["Session 3", "named"]);
}

#[test]
fn add_with_port_sets_the_port_and_names_the_session() {
    let mut store = SessionManager::new();
    let index = store.add_session_with_port("/dev/ttyUSB0".to_string(), None);
    assert_eq!(index, 1);
    let session = store.get_session(1).unwrap();
    assert_eq!(session.name, "Session 2 - /dev/ttyUSB0");
    assert_eq!(session.config.port, "/dev/ttyUSB0");
    assert_eq!(session.config.baud_rate, 9600);
    let index = store.add_session_with_port("COM7".to_string(), Some("bench".to_string()));
    assert_eq!(index, 2);
    assert_eq!(store.get_session(2).unwrap().name, "bench");
    assert_eq!(store.get_session(2).unwrap().config.port, "COM7");
    assert_eq!(store.get_session(2).unwrap().id, 2);
}

#[test]
fn switch_to_checks_the_range() {
    let mut store = SessionManager::new();
    store.add_session(None);
    assert!(!store.switch_to(2));
    assert_eq!(store.active_index(), 0);
    assert!(store.switch_to(1));
    assert_eq!(store.active_index(), 1);
    assert!(store.switch_to(0));
    assert_eq!(store.active_index(), 0);
}

#[test]
fn next_and_prev_session_wrap_around() {
    let mut store = SessionManager::new();
    store.next_session();
    assert_eq!(store.active_index(), 0);
    store.prev_session();
    assert_eq!(store.active_index(), 0);
    store.add_session(None);
    store.add_session(None);
    store.prev_session();
    assert_eq!(store.active_index(), 2);
    store.next_session();
    assert_eq!(store.active_index(), 0);
    store.next_session();
    assert_eq!(store.active_index(), 1);
    store.prev_session();
    assert_eq!(store.active_index(), 0);
}

#[test]
fn rename_checks_the_range() {
    let mut store = SessionManager::new();
    assert!(store.rename_session(0, "main".to_string()));
    assert_eq!(store.active_session().name, "main");
    assert!(!store.rename_session(1, "other".to_string()));
    assert_eq!(names(&store), vec!["main"]);
}

#[test]
fn duplicate_copies_settings_and_resets_runtime_state() {
    let mut store = SessionManager::new();
    {
        let s = store.active_session_mut();
        s.config.port = "COM3".to_string();
        s.config.baud_rate = 115200;
        s.config.parity = Parity::Even;
        s.is_connected = true;
        s.config_locked = true;
        s.message_log.push_rx(vec![1, 2, 3]);
        s.message_log.push_tx(vec![4]);
        s.display_mode = DisplayMode::Text;
        s.tx_input = "abc".to_string();
        s.tx_cursor = 2;
        s.tx_mode = TxMode::Hex;
        s.tx_append_mode = AppendMode::CRLF;
        s.focused_field = FocusedField::TxInput;
        s.baud_rate_state.select(Some(8));
        s.add_info("hello");
    }
    let index = store.duplicate_active_session();
    assert_eq!(index, 1);
    assert_eq!(store.active_index(), 0);
    let copy = store.get_session(1).unwrap();
    assert_eq!(copy.id, 1);
    assert_eq!(copy.name, "Session 1 (Copy)");
    assert_eq!(copy.config.port, "COM3");
    assert_eq!(copy.config.baud_rate, 115200);
    assert_eq!(copy.config.parity, Parity::Even);
    assert_eq!(copy.config.flow_control, FlowControl::Off);
    assert!(!copy.is_connected);
    assert!(!copy.config_locked);
    assert_eq!(copy.message_log.entries.len(), 0);
    assert_eq!(copy.message_log.rx_count, 0);
    assert_eq!(copy.message_log.tx_count, 0);
    assert_eq!(copy.display_mode, DisplayMode::Text);
    assert_eq!(copy.tx_input, "abc");
    assert_eq!(copy.tx_cursor, 2);
    assert_eq!(copy.tx_mode, TxMode::Hex);
    assert_eq!(copy.tx_append_mode, AppendMode::CRLF);
    assert_eq!(copy.focused_field, FocusedField::TxInput);
    assert_eq!(copy.baud_rate_state.selected(), Some(8));
    assert_eq!(copy.notifications.len(), 1);
    assert_eq!(copy.notifications[0].message, "hello");
    // The session copied is untouched.
    let source = store.get_session(0).unwrap();
    assert!(source.is_connected);
    assert_eq!(source.message_log.entries.len(), 2);
    assert_eq!(store.next_id(), 2);
}

#[test]
fn accessors_by_index() {
    let mut store = SessionManager::new();
    store.add_session(None);
    assert!(store.get_session(2).is_none());
    assert!(store.get_session_mut(2).is_none());
    store.get_session_mut(1).unwrap().scroll_offset = 9;
    assert_eq!(store.sessions()[1].scroll_offset, 9);
    store.sessions_mut()[0].auto_scroll = false;
    assert!(!store.get_session(0).unwrap().auto_scroll);
    assert_eq!(store.sessions().len(), 2);
}

#[test]
fn invariants_hold_over_a_mixed_run() {
    let mut store = SessionManager::new();
    let mut seen = vec![0usize];
    for step in 0..60usize {
        match step % 7 {
            0 | 3 => {
                let i = store.add_session(None);
                seen.push(store.get_session(i).unwrap().id);
            }
            1 => {
                store.remove_session(step % 3);
            }
            2 => {
                store.switch_to(step % 5);
            }
            4 => store.next_session(),
            5 => store.prev_session(),
            _ => {
                let i = store.duplicate_active_session();
                seen.push(store.get_session(i).unwrap().id);
            }
        }
        assert!(store.len() >= 1);
        assert!(store.active_index() < store.len());
    }
    let mut sorted = seen.clone();
    sorted.sort();
    sorted.dedup();
    assert_eq!(sorted.len(), seen.len());
}

#[test]
fn new_session_starts_with_the_defaults() {
    let s = SerialSession::new(7, "x".to_string());
    assert_eq!(s.id, 7);
    assert_eq!(s.name, "x");
    assert_eq!(s.config.port, "");
    assert_eq!(s.config.baud_rate, 9600);
    assert_eq!(s.display_mode, DisplayMode::Hex);
    assert!(!s.is_connected);
    assert!(!s.config_locked);
    assert_eq!(s.scroll_offset, 0);
    assert!(s.auto_scroll);
    assert_eq!(s.tx_input, "");
    assert_eq!(s.tx_mode, TxMode::Ascii);
    assert_eq!(s.tx_append_mode, AppendMode::Nothing);
    assert_eq!(s.tx_cursor, 0);
    assert_eq!(s.port_list_state, ListSelection { offset: 0, selected: Some(0) });
    assert_eq!(s.baud_rate_state.selected(), Some(4));
    assert_eq!(s.parity_state.selected(), Some(0));
    assert_eq!(s.flow_control_state.selected(), Some(0));
    assert_eq!(s.data_bits_state.selected(), Some(3));
    assert_eq!(s.stop_bits_state.selected(), Some(0));
    assert_eq!(s.append_mode_state.selected(), Some(0));
    assert_eq!(s.focused_field, FocusedField::Port);
    assert!(s.notifications.is_empty());
    assert!(s.message_log.entries.is_empty());
    let p = SerialSession::with_port(1, "y".to_string(), "COM1".to_string());
    assert_eq!(p.config.port, "COM1");
    assert_eq!(p.config.data_bits, 8);
}

#[test]
fn toggles_are_their_own_inverse() {
    let mut s = SerialSession::new(0, "s".to_string());
    s.toggle_display_mode();
    assert_eq!(s.display_mode, DisplayMode::Text);
    s.toggle_display_mode();
    assert_eq!(s.display_mode, DisplayMode::Hex);
    s.toggle_tx_mode();
    assert_eq!(s.tx_mode, TxMode::Hex);
    s.toggle_tx_mode();
    assert_eq!(s.tx_mode, TxMode::Ascii);
    assert_eq!(DisplayMode::Hex.toggled().toggled(), DisplayMode::Hex);
    assert_eq!(DisplayMode::Text.toggled().toggled(), DisplayMode::Text);
    assert_eq!(TxMode::Hex.toggled().toggled(), TxMode::Hex);
    assert_eq!(TxMode::Ascii.toggled().toggled(), TxMode::Ascii);
}

#[test]
fn focus_walks_the_ring_of_eight() {
    let ring = [
        FocusedField::Port,
        FocusedField::BaudRate,
        FocusedField::DataBits,
        FocusedField::Parity,
        FocusedField::StopBits,
        FocusedField::FlowControl,
        FocusedField::LogArea,
        FocusedField::TxInput,
    ];
    let mut s = SerialSession::new(0, "s".to_string());
    for i in 0..8 {
        assert_eq!(s.focused_field, ring[i]);
        assert_eq!(ring[i].index(), i);
        assert_eq!(FocusedField::from_index(i + 8), ring[i]);
        s.focus_next_field();
    }
    assert_eq!(s.focused_field, FocusedField::Port);
    for i in (0..8).rev() {
        s.focus_prev_field();
        assert_eq!(s.focused_field, ring[i]);
    }
    // Focus moves even while the configuration is locked.
    s.lock_config();
    assert!(!s.can_modify_config());
    s.focus_next_field();
    assert_eq!(s.focused_field, FocusedField::BaudRate);
    s.unlock_config();
    assert!(s.can_modify_config());
}

#[test]
fn notifications_queue_in_order_with_their_level() {
    let mut s = SerialSession::new(0, "s".to_string());
    s.add_info("i");
    s.add_warning("w");
    s.add_error("e");
    s.add_success("s");
    s.add_notification(Notification::new("n".to_string(), NotificationLevel::Warning));
    let got: Vec<(String, NotificationLevel, u64)> = s
        .notifications
        .iter()
        .map(|n| (n.message.clone(), n.level, n.duration_ms))
        .collect();
    assert_eq!(
        got,
        vec![
            ("i".to_string(), NotificationLevel::Info, 3000),
            ("w".to_string(), NotificationLevel::Warning, 3000),
            ("e".to_string(), NotificationLevel::Error, 3000),
            ("s".to_string(), NotificationLevel::Success, 3000),
            ("n".to_string(), NotificationLevel::Warning, 3000),
        ]
    );
}

#[test]
fn expired_notifications_leave_from_the_front_only() {
    let mut s = SerialSession::new(0, "s".to_string());
    s.add_info("old");
    s.add_info("fresh");
    s.add_info("old too");
    s.notifications[0].duration_ms = 0;
    s.notifications[2].duration_ms = 0;
    wait_a_little();
    s.update_notifications();
    let left: Vec<String> = s.notifications.iter().map(|n| n.message.clone()).collect();
    // The scan stops at the first notification that has not expired.
    assert_eq!(left, vec!["fresh", "old too"]);
    s.update_notifications();
    assert_eq!(s.notifications.len(), 2);

    let mut store = SessionManager::new();
    store.add_session(None);
    store.sessions_mut()[1].add_error("gone");
    store.sessions_mut()[1].notifications[0].duration_ms = 0;
    store.sessions_mut()[0].add_error("stays");
    wait_a_little();
    store.update_all_notifications();
    assert_eq!(store.sessions()[0].notifications.len(), 1);
    assert_eq!(store.sessions()[1].notifications.len(), 0);
}

#[test]
fn update_ui_states_selects_the_configured_values() {
    let mut s = SerialSession::new(0, "s".to_string());
    s.config.baud_rate = 115200;
    s.config.parity = Parity::Odd;
    s.config.flow_control = FlowControl::Software;
    s.config.data_bits = 6;
    s.config.stop_bits = 3;
    s.update_ui_states(
        &[300, 9600, 115200, 115200],
        &[Parity::Off, Parity::Even, Parity::Odd],
        &[FlowControl::Off, FlowControl::Hardware, FlowControl::Software],
        &[5, 6, 7, 8],
        &[1, 2],
    );
    assert_eq!(s.baud_rate_state.selected(), Some(2));
    assert_eq!(s.parity_state.selected(), Some(2));
    assert_eq!(s.flow_control_state.selected(), Some(2));
    assert_eq!(s.data_bits_state.selected(), Some(1));
    // A value that the list does not hold leaves the selection alone.
    assert_eq!(s.stop_bits_state.selected(), Some(0));
}

#[test]
fn clone_copies_a_session_with_its_log() {
    let mut s = SerialSession::new(3, "s".to_string());
    s.message_log.push_rx(vec![1, 2]);
    s.is_connected = true;
    s.add_warning("w");
    let c = s.clone();
    assert_eq!(c.id, 3);
    assert_eq!(c.name, "s");
    assert!(c.is_connected);
    assert_eq!(c.message_log.entries.len(), 1);
    assert_eq!(c.message_log.entries[0].data, vec![1, 2]);
    assert_eq!(c.message_log.entries[0].timestamp, s.message_log.entries[0].timestamp);
    assert_eq!(c.message_log.rx_count, 1);
    assert_eq!(c.notifications.len(), 1);
    assert_eq!(c.notifications[0].message, "w");
    assert_eq!(c.notifications[0].created_at, s.notifications[0].created_at);
}

#[test]
fn queued_notifications_keep_their_creation_time() {
    let mut s = SerialSession::new(0, "s".to_string());
    s.add_info("first");
    s.add_error("second");
    let stamps: Vec<std::time::Instant> = s.notifications.iter().map(|n| n.created_at).collect();
    wait_a_little();
    s.toggle_display_mode();
    s.toggle_display_mode();
    s.toggle_tx_mode();
    s.toggle_tx_mode();
    for _ in 0..8 {
        s.focus_next_field();
    }
    s.focus_prev_field();
    s.lock_config();
    s.unlock_config();
    s.update_ui_states(&[9600], &[Parity::Off], &[FlowControl::Off], &[8], &[1]);
    s.add_warning("third");
    let after: Vec<std::time::Instant> = s.notifications.iter().map(|n| n.created_at).collect();
    assert_eq!(after.len(), 3);
    assert_eq!(&after[..2], &stamps[..]);
    assert!(after[2] > after[1]);

    let mut store = SessionManager::new();
    store.active_session_mut().add_info("kept");
    let stamp = store.active_session().notifications[0].created_at;
    wait_a_little();
    store.add_session(None);
    store.duplicate_active_session();
    store.rename_session(0, "renamed".to_string());
    store.switch_to(1);
    store.next_session();
    store.prev_session();
    store.remove_session(1);
    assert_eq!(store.sessions()[0].notifications[0].created_at, stamp);
    // The copy carries the notification with its time.
    assert_eq!(store.sessions()[1].notifications[0].created_at, stamp);
    assert_eq!(store.sessions()[1].name, "Session 1 (Copy)");
}
