use tuiserial::config::{DataBits, SerialConfig, StopBits};
use tuiserial::notification::NotificationLevel;
use tuiserial::state::AppState;
use tuiserial::types::{
    AppendMode, DisplayMode, FlowControl, FocusedField, Language, MenuState, Parity, TxMode,
};

fn notes(app: &AppState) -> Vec<(NotificationLevel, String)> {
    app.notifications.iter().map(|n| (n.level, n.message.clone())).collect()
}

fn wait_a_little() {
    let start = std::time::Instant::now();
    while start.elapsed().as_millis() < 3 {}
}

#[test]
fn the_monitor_starts_in_its_initial_state() {
    let app = AppState::new();
    assert!(app.is_valid());
    assert!(app.has_room());
    assert_eq!(app.config.baud_rate, 9600);
    assert_eq!(app.baud_rate_options, vec![300, 1200, 2400, 4800, 9600, 19200, 38400, 57600, 115200, 230400]);
    assert_eq!(app.baud_rate_state.selected(), Some(4));
    assert_eq!(app.parity_options, vec![Parity::Off, Parity::Even, Parity::Odd]);
    assert_eq!(
        app.flow_control_options,
        vec![FlowControl::Off, FlowControl::Hardware, FlowControl::Software]
    );
    assert_eq!(app.data_bits_options, vec![5, 6, 7, 8]);
    assert_eq!(app.data_bits_state.selected(), Some(3));
    assert_eq!(app.stop_bits_options, vec![1, 2]);
    assert_eq!(app.append_mode_options, AppendMode::all());
    assert_eq!(app.display_mode, DisplayMode::Hex);
    assert_eq!(app.tx_mode, TxMode::Ascii);
    assert_eq!(app.focused_field, FocusedField::Port);
    assert_eq!(app.menu_state, MenuState::Closed);
    assert_eq!(app.language, Language::English);
    assert!(app.ports.is_empty());
    assert!(app.auto_scroll);
    assert!(!app.is_connected);
    assert!(!app.config_locked);
    assert!(!app.show_shortcuts_help);
    assert!(!app.debug_mode);
    let d = AppState::default();
    assert_eq!(d.baud_rate_options.len(), 10);
}

#[test]
fn baud_rate_steps_wrap_around() {
    let mut app = AppState::new();
    assert!(app.next_baud_rate());
    assert_eq!(app.config.baud_rate, 19200);
    assert_eq!(app.baud_rate_state.selected(), Some(5));
    for _ in 0..4 {
        assert!(app.next_baud_rate());
    }
    assert_eq!(app.config.baud_rate, 230400);
    assert!(app.next_baud_rate());
    assert_eq!(app.config.baud_rate, 300);
    assert_eq!(app.baud_rate_state.selected(), Some(0));
    assert!(app.prev_baud_rate());
    assert_eq!(app.config.baud_rate, 230400);
    assert!(app.prev_baud_rate());
    assert_eq!(app.config.baud_rate, 115200);
    assert!(app.select_baud_rate(2));
    assert_eq!(app.config.baud_rate, 2400);
    assert!(!app.select_baud_rate(10));
    assert_eq!(app.config.baud_rate, 2400);
}

#[test]
fn a_locked_configuration_refuses_every_change() {
    let mut app = AppState::new();
    app.ports = vec!["COM1".to_string(), "COM2".to_string()];
    app.lock_config();
    assert!(!app.can_modify_config());
    assert!(!app.next_baud_rate());
    assert!(!app.prev_baud_rate());
    assert!(!app.toggle_parity());
    assert!(!app.prev_parity());
    assert!(!app.toggle_flow_control());
    assert!(!app.prev_flow_control());
    assert!(!app.next_data_bits());
    assert!(!app.prev_data_bits());
    assert!(!app.next_stop_bits());
    assert!(!app.prev_stop_bits());
    assert!(!app.select_port(1));
    assert!(!app.select_baud_rate(0));
    assert!(!app.select_data_bits(0));
    assert!(!app.select_parity(1));
    assert!(!app.select_stop_bits(1));
    assert!(!app.select_flow_control(1));
    assert_eq!(app.config.port, "");
    assert_eq!(app.config.baud_rate, 9600);
    assert_eq!(app.config.data_bits, 8);
    assert_eq!(app.config.parity, Parity::Off);
    assert_eq!(app.config.stop_bits, 1);
    assert_eq!(app.config.flow_control, FlowControl::Off);
    assert_eq!(app.baud_rate_state.selected(), Some(4));
    // The focus still moves.
    app.focus_next_field();
    assert_eq!(app.focused_field, FocusedField::BaudRate);
    app.focus_prev_field();
    app.focus_prev_field();
    assert_eq!(app.focused_field, FocusedField::TxInput);
    app.unlock_config();
    assert!(app.next_baud_rate());
    assert!(app.select_port(1));
    assert_eq!(app.config.port, "COM2");
    assert_eq!(app.port_list_state.selected(), Some(1));
    assert!(!app.select_port(2));
}

#[test]
fn the_other_lists_step_and_wrap() {
    let mut app = AppState::new();
    assert!(app.toggle_parity());
    assert_eq!(app.config.parity, Parity::Even);
    assert!(app.toggle_parity());
    assert!(app.toggle_parity());
    assert_eq!(app.config.parity, Parity::Off);
    assert!(app.prev_parity());
    assert_eq!(app.config.parity, Parity::Odd);
    assert!(app.toggle_flow_control());
    assert_eq!(app.config.flow_control, FlowControl::Hardware);
    assert!(app.prev_flow_control());
    assert!(app.prev_flow_control());
    assert_eq!(app.config.flow_control, FlowControl::Software);
    assert!(app.next_data_bits());
    assert_eq!(app.config.data_bits, 5);
    assert!(app.prev_data_bits());
    assert_eq!(app.config.data_bits, 8);
    assert!(app.prev_data_bits());
    assert_eq!(app.config.data_bits, 7);
    assert!(app.next_stop_bits());
    assert_eq!(app.config.stop_bits, 2);
    assert!(app.next_stop_bits());
    assert_eq!(app.config.stop_bits, 1);
    assert!(app.prev_stop_bits());
    assert_eq!(app.config.stop_bits, 2);
    assert!(app.select_data_bits(1));
    assert_eq!(app.config.data_bits, 6);
    assert!(app.select_parity(2));
    assert_eq!(app.config.parity, Parity::Odd);
    assert!(app.select_stop_bits(0));
    assert_eq!(app.config.stop_bits, 1);
    assert!(app.select_flow_control(1));
    assert_eq!(app.config.flow_control, FlowControl::Hardware);
    assert!(!app.select_flow_control(3));
    // Without a selection nothing moves.
    app.baud_rate_state.select(None);
    assert!(!app.next_baud_rate());
    assert!(!app.prev_baud_rate());
    assert!(app.is_valid());
}

#[test]
fn append_mode_steps_and_wraps() {
    let mut app = AppState::new();
    app.prev_append_mode();
    assert_eq!(app.tx_append_mode, AppendMode::LFCR);
    assert_eq!(app.append_mode_state.selected(), Some(4));
    app.next_append_mode();
    assert_eq!(app.tx_append_mode, AppendMode::Nothing);
    app.next_append_mode();
    assert_eq!(app.tx_append_mode, AppendMode::LF);
    assert!(app.select_append_mode(3));
    assert_eq!(app.tx_append_mode, AppendMode::CRLF);
    assert!(!app.select_append_mode(5));
    // The append mode is no serial parameter: a lock does not hold it.
    app.lock_config();
    app.next_append_mode();
    assert_eq!(app.tx_append_mode, AppendMode::LFCR);
    app.append_mode_state.select(None);
    app.next_append_mode();
    app.prev_append_mode();
    assert_eq!(app.tx_append_mode, AppendMode::LFCR);
}

#[test]
fn append_modes_and_their_bytes() {
    let all = AppendMode::all();
    assert_eq!(
        all,
        vec![AppendMode::Nothing, AppendMode::LF, AppendMode::CR, AppendMode::CRLF, AppendMode::LFCR]
    );
    let bytes: Vec<Vec<u8>> = all.iter().map(|m| m.as_bytes()).collect();
    assert_eq!(bytes, vec![vec![], vec![0x0A], vec![0x0D], vec![0x0D, 0x0A], vec![0x0A, 0x0D]]);
    let names: Vec<&str> = all.iter().map(|m| m.name()).collect();
    assert_eq!(names, vec!["无追加", "\\n", "\\r", "\\r\\n", "\\n\\r"]);
    for (i, mode) in all.iter().enumerate() {
        assert_eq!(AppendMode::from_index(i), *mode);
        assert_eq!(AppendMode::from_index(i + 5), *mode);
    }
}

#[test]
fn small_enumerations() {
    assert_eq!(Language::all(), vec![Language::English, Language::Chinese]);
    assert_eq!(Language::English.name(), "English");
    assert_eq!(Language::Chinese.name(), "中文");
    assert_eq!(Language::English.toggled(), Language::Chinese);
    assert_eq!(Language::Chinese.toggled(), Language::English);
    assert_eq!(DisplayMode::Hex.label(), "HEX");
    assert_eq!(DisplayMode::Text.label(), "TEXT");
    assert_eq!(TxMode::Hex.label(), "HEX");
    assert_eq!(TxMode::Ascii.label(), "ASCII");
    assert_eq!(Parity::Off.name(), "None");
    assert_eq!(Parity::Even.name(), "Even");
    assert_eq!(Parity::Odd.name(), "Odd");
    assert_eq!(FlowControl::Off.name(), "None");
    assert_eq!(FlowControl::Hardware.name(), "Hardware");
    assert_eq!(FlowControl::Software.name(), "Software");
    assert_eq!(FocusedField::Port.prev(), FocusedField::TxInput);
    assert_eq!(FocusedField::TxInput.next(), FocusedField::Port);
}

#[test]
fn toggles_of_the_state() {
    let mut app = AppState::new();
    app.toggle_display_mode();
    assert_eq!(app.display_mode, DisplayMode::Text);
    app.toggle_display_mode();
    assert_eq!(app.display_mode, DisplayMode::Hex);
    app.toggle_tx_mode();
    assert_eq!(app.tx_mode, TxMode::Hex);
    app.toggle_tx_mode();
    assert_eq!(app.tx_mode, TxMode::Ascii);
    app.toggle_language();
    assert_eq!(app.language, Language::Chinese);
    app.toggle_language();
    assert_eq!(app.language, Language::English);
}

#[test]
fn notifications_of_the_state() {
    let mut app = AppState::new();
    app.add_info("a");
    app.add_warning("b");
    app.add_error("c");
    app.add_success("d");
    assert_eq!(
        notes(&app),
        vec![
            (NotificationLevel::Info, "a".to_string()),
            (NotificationLevel::Warning, "b".to_string()),
            (NotificationLevel::Error, "c".to_string()),
            (NotificationLevel::Success, "d".to_string()),
        ]
    );
    app.update_notifications();
    assert_eq!(app.notifications.len(), 4);
    app.notifications[0].duration_ms = 0;
    app.notifications[1].duration_ms = 0;
    app.notifications[3].duration_ms = 0;
    wait_a_little();
    app.update_notifications();
    assert_eq!(
        notes(&app),
        vec![
            (NotificationLevel::Error, "c".to_string()),
            (NotificationLevel::Success, "d".to_string()),
        ]
    );
}

#[test]
fn a_loaded_configuration_moves_the_selections() {
    let mut app = AppState::new();
    let mut config = SerialConfig::with_port("/dev/ttyACM0");
    config.baud_rate = 57600;
    config.data_bits = 7;
    config.parity = Parity::Even;
    config.stop_bits = 2;
    config.flow_control = FlowControl::Software;
    app.apply_loaded_config(config);
    assert_eq!(app.config.port, "/dev/ttyACM0");
    assert_eq!(app.config.baud_rate, 57600);
    assert_eq!(app.baud_rate_state.selected(), Some(7));
    assert_eq!(app.data_bits_state.selected(), Some(2));
    assert_eq!(app.parity_state.selected(), Some(1));
    assert_eq!(app.stop_bits_state.selected(), Some(1));
    assert_eq!(app.flow_control_state.selected(), Some(2));
    // Values that the lists do not hold are taken over all the same.
    let mut odd = SerialConfig::new();
    odd.baud_rate = 1234;
    odd.data_bits = 9;
    app.apply_loaded_config(odd);
    assert_eq!(app.config.baud_rate, 1234);
    assert_eq!(app.config.data_bits, 9);
    assert_eq!(app.baud_rate_state.selected(), Some(7));
    assert_eq!(app.data_bits_state.selected(), Some(2));
    assert_eq!(app.parity_state.selected(), Some(0));
    assert!(app.is_valid());
}

#[test]
fn validity_is_checked() {
    let mut app = AppState::new();
    app.tx_cursor = 1;
    assert!(!app.is_valid());
    app.tx_input = "é".to_string();
    assert!(app.is_valid());
    app.menu_state = MenuState::Dropdown(3, 1);
    assert!(!app.is_valid());
    app.menu_state = MenuState::Dropdown(3, 0);
    assert!(app.is_valid());
    app.menu_state = MenuState::MenuBar(5);
    assert!(!app.is_valid());
    app.menu_state = MenuState::Closed;
    app.stop_bits_state.select(Some(2));
    assert!(!app.is_valid());
    app.stop_bits_state.select(None);
    assert!(app.is_valid());
    app.parity_options.clear();
    assert!(!app.is_valid());
    app.parity_options.push(Parity::Odd);
    app.message_log.tx_count = u64::MAX;
    assert!(app.is_valid());
    assert!(!app.has_room());
}

#[test]
fn line_settings_for_opening_the_port() {
    let mut config = SerialConfig::new();
    let mut got = Vec::new();
    for bits in [0u8, 4, 5, 6, 7, 8, 9, 255] {
        config.data_bits = bits;
        got.push(config.data_bits_setting());
    }
    assert_eq!(
        got,
        vec![
            DataBits::Eight, DataBits::Eight, DataBits::Five, DataBits::Six, DataBits::Seven,
            DataBits::Eight, DataBits::Eight, DataBits::Eight
        ]
    );
    let mut stops = Vec::new();
    for bits in [0u8, 1, 2, 3] {
        config.stop_bits = bits;
        stops.push(config.stop_bits_setting());
    }
    assert_eq!(stops, vec![StopBits::One, StopBits::One, StopBits::Two, StopBits::One]);
}
