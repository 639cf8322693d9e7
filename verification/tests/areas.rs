use tuiserial::areas::{
    calculate_tab_bar_height, find_clicked_menu, get_clicked_field, get_clicked_menu,
    get_clicked_tab, get_tab_at_position, is_button_area, is_clickable_area, is_inside,
    is_shortcuts_hint_clicked, update_area, UiAreaField, UiAreas,
};
use tuiserial::layout::Rect;
use tuiserial::mouse::{
    calculate_dropdown_area, calculate_dropdown_item, get_cursor_type, handle_mouse_click,
    handle_mouse_hover, handle_mouse_scroll, menu_dropdown_area, scroll_top, CursorType,
    MouseAction, ScrollAction, ScrollDirection,
};
use tuiserial::state::AppState;
use tuiserial::text::display_width;
use tuiserial::types::{FocusedField, Language, MenuState};

#[test]
fn test_calculate_tab_bar_height() {
    assert_eq!(calculate_tab_bar_height(0, false), 0);
    assert_eq!(calculate_tab_bar_height(1, false), 0);
    assert_eq!(calculate_tab_bar_height(2, false), 1);
    assert_eq!(calculate_tab_bar_height(2, true), 3);
}

#[test]
fn test_get_tab_at_position() {
    let area = Rect {
        x: 0,
        y: 0,
        width: 80,
        height: 1,
    };

    assert_eq!(get_tab_at_position(area, 10, 0, 4, 0), Some(0));
    assert_eq!(get_tab_at_position(area, 30, 0, 4, 0), Some(1));
    assert_eq!(get_tab_at_position(area, 10, 5, 4, 0), None); // Outside area
}

#[test]
fn test_menu_click_detection() {
    let area = Rect {
        x: 0,
        y: 0,
        width: 80,
        height: 1,
    };

    // Click on first menu (File)
    let result = find_clicked_menu(2, 0, area, Language::English);
    assert_eq!(result, Some(0));

    // Click outside menu bar
    let result = find_clicked_menu(2, 1, area, Language::English);
    assert_eq!(result, None);
}

#[test]
fn test_calculate_dropdown_item() {
    let area = Rect {
        x: 0,
        y: 1,
        width: 20,
        height: 5,
    };

    assert_eq!(calculate_dropdown_item(area, 0), 0); // Above area
    assert_eq!(calculate_dropdown_item(area, 1), 0); // Border
    assert_eq!(calculate_dropdown_item(area, 2), 1); // First item
    assert_eq!(calculate_dropdown_item(area, 3), 2); // Second item
}

#[test]
fn test_calculate_dropdown_area() {
    let menu_bar = Rect {
        x: 0,
        y: 0,
        width: 80,
        height: 1,
    };

    let area = calculate_dropdown_area(menu_bar, 0, 4, Language::English);
    assert_eq!(area.y, 1); // Below menu bar
    assert_eq!(area.height, 6); // 4 items + 2 borders
}

#[test]
fn test_is_clickable_area() {
    let result = is_clickable_area(&UiAreas::default(), 0, 0);
    assert!(result == true || result == false);
}

#[test]
fn test_shortcuts_rendering() {
    let shortcuts = vec![("Ctrl+T", "New Session"), ("Ctrl+W", "Close Session")];
    assert_eq!(shortcuts.len(), 2);
}

#[test]
fn test_display_width_ascii() {
    assert_eq!(display_width("hello"), 5);
    assert_eq!(display_width("test123"), 7);
}

#[test]
fn test_display_width_cjk() {
    assert_eq!(display_width("你好"), 4);
    assert_eq!(display_width("こんにちは"), 10);
}

#[test]
fn test_display_width_mixed() {
    // H(1) e(1) l(1) l(1) o(1) space(1) 世(2) 界(2) = 10
    assert_eq!(display_width("Hello 世界"), 10);
    assert_eq!(display_width("Test测试"), 8); // 4 + 4
}

#[test]
fn test_display_width_empty() {
    assert_eq!(display_width(""), 0);
}

#[test]
fn display_width_counts_every_other_character_twice() {
    assert_eq!(display_width("\u{7f}"), 1);
    assert_eq!(display_width("\u{80}"), 2);
    assert_eq!(display_width("é×\u{10FFFF}"), 6);
    assert_eq!(display_width("Grid 2×2"), 9);
}

fn areas() -> UiAreas {
    let mut a = UiAreas::default();
    update_area(&mut a, UiAreaField::MenuBar, Rect::new(0, 0, 80, 1));
    update_area(&mut a, UiAreaField::Port, Rect::new(0, 1, 42, 5));
    update_area(&mut a, UiAreaField::BaudRate, Rect::new(0, 6, 42, 5));
    update_area(&mut a, UiAreaField::DataBits, Rect::new(0, 11, 42, 3));
    update_area(&mut a, UiAreaField::Parity, Rect::new(0, 14, 42, 3));
    update_area(&mut a, UiAreaField::StopBits, Rect::new(0, 17, 42, 3));
    update_area(&mut a, UiAreaField::FlowControl, Rect::new(0, 20, 42, 3));
    update_area(&mut a, UiAreaField::StatusPanel, Rect::new(0, 23, 42, 10));
    update_area(&mut a, UiAreaField::LogArea, Rect::new(42, 1, 38, 20));
    update_area(&mut a, UiAreaField::TxArea, Rect::new(42, 21, 38, 7));
    update_area(&mut a, UiAreaField::ControlArea, Rect::new(42, 28, 38, 3));
    update_area(&mut a, UiAreaField::NotificationArea, Rect::new(0, 33, 80, 3));
    update_area(&mut a, UiAreaField::ShortcutsHint, Rect::new(0, 36, 80, 1));
    update_area(&mut a, UiAreaField::TabBar, Rect::new(0, 37, 80, 1));
    a
}

#[test]
fn update_area_sets_the_named_rectangle_only() {
    let mut a = UiAreas::default();
    assert_eq!(a.port, Rect::new(0, 0, 0, 0));
    update_area(&mut a, UiAreaField::TxArea, Rect::new(1, 2, 3, 4));
    assert_eq!(a.tx_area, Rect::new(1, 2, 3, 4));
    let mut expected = UiAreas::default();
    expected.tx_area = Rect::new(1, 2, 3, 4);
    assert_eq!(a, expected);
    let all = areas();
    assert_eq!(all.menu_bar, Rect::new(0, 0, 80, 1));
    assert_eq!(all.status_panel, Rect::new(0, 23, 42, 10));
    assert_eq!(all.notification_area, Rect::new(0, 33, 80, 3));
    assert_eq!(all.tab_bar, Rect::new(0, 37, 80, 1));
}

#[test]
fn is_inside_is_half_open_and_does_not_overflow() {
    let r = Rect::new(10, 20, 5, 2);
    assert!(is_inside(r, 10, 20));
    assert!(is_inside(r, 14, 21));
    assert!(!is_inside(r, 15, 20));
    assert!(!is_inside(r, 10, 22));
    assert!(!is_inside(r, 9, 20));
    assert!(!is_inside(r, 10, 19));
    assert!(!is_inside(Rect::new(3, 3, 0, 0), 3, 3));
    let edge = Rect::new(65535, 65535, 65535, 65535);
    assert!(is_inside(edge, 65535, 65535));
    assert!(!is_inside(edge, 65534, 65535));
    assert!(is_button_area(r, 12, 21, "OK"));
    assert!(!is_button_area(r, 12, 22, "OK"));
}

#[test]
fn clicked_field_follows_the_rectangles() {
    let a = areas();
    assert_eq!(get_clicked_field(&a, 3, 2), Some(FocusedField::Port));
    assert_eq!(get_clicked_field(&a, 3, 6), Some(FocusedField::BaudRate));
    assert_eq!(get_clicked_field(&a, 41, 12), Some(FocusedField::DataBits));
    assert_eq!(get_clicked_field(&a, 0, 14), Some(FocusedField::Parity));
    assert_eq!(get_clicked_field(&a, 0, 19), Some(FocusedField::StopBits));
    assert_eq!(get_clicked_field(&a, 0, 22), Some(FocusedField::FlowControl));
    assert_eq!(get_clicked_field(&a, 42, 1), Some(FocusedField::LogArea));
    assert_eq!(get_clicked_field(&a, 79, 27), Some(FocusedField::TxInput));
    assert_eq!(get_clicked_field(&a, 50, 29), None);
    assert_eq!(get_clicked_field(&a, 3, 0), None);
    // Where rectangles overlap, the first in the order wins.
    let mut b = a;
    b.baud_rate = b.port;
    assert_eq!(get_clicked_field(&b, 3, 2), Some(FocusedField::Port));
}

#[test]
fn clicked_menu_of_the_fixed_width_bar() {
    let mut a = areas();
    a.menu_bar = Rect::new(2, 0, 80, 1);
    let got: Vec<Option<usize>> = [2u16, 8, 9, 10, 18, 19, 20, 26, 27, 28, 37, 38, 39, 44, 45, 60]
        .iter()
        .map(|x| get_clicked_menu(&a, *x, 0))
        .collect();
    assert_eq!(
        got,
        vec![
            Some(0), Some(0), None, Some(1), Some(1), None, Some(2), Some(2), None, Some(3),
            Some(3), None, Some(4), Some(4), None, None
        ]
    );
    assert_eq!(get_clicked_menu(&a, 3, 1), None);
    assert_eq!(get_clicked_menu(&a, 1, 0), None);
}

#[test]
fn clicked_menu_by_translated_labels() {
    let bar = Rect::new(5, 3, 30, 1);
    assert_eq!(find_clicked_menu(5, 3, bar, Language::English), Some(0));
    assert_eq!(find_clicked_menu(13, 3, bar, Language::English), Some(1));
    assert_eq!(find_clicked_menu(12, 3, bar, Language::English), None);
    assert_eq!(find_clicked_menu(4, 3, bar, Language::English), None);
    // Help starts at column 39 of the bar, beyond its width of 30.
    assert_eq!(find_clicked_menu(44, 3, bar, Language::English), None);
    assert_eq!(find_clicked_menu(34, 3, bar, Language::English), Some(3));
    assert_eq!(find_clicked_menu(21, 3, bar, Language::Chinese), Some(2));
}

#[test]
fn clicked_tab_shares_the_bar_evenly() {
    let a = areas();
    assert_eq!(get_clicked_tab(&a, 0, 37, 4), Some(0));
    assert_eq!(get_clicked_tab(&a, 19, 37, 4), Some(0));
    assert_eq!(get_clicked_tab(&a, 20, 37, 4), Some(1));
    assert_eq!(get_clicked_tab(&a, 79, 37, 4), Some(3));
    assert_eq!(get_clicked_tab(&a, 79, 37, 3), None); // 80 / 3 = 26, 79 / 26 = 3
    assert_eq!(get_clicked_tab(&a, 10, 37, 0), None);
    assert_eq!(get_clicked_tab(&a, 10, 36, 4), None);
    // More tabs than columns: every tab is one column wide.
    assert_eq!(get_clicked_tab(&a, 79, 37, 200), Some(79));
    assert_eq!(get_tab_at_position(Rect::new(4, 2, 10, 3), 13, 2, 5, 0), Some(4));
    assert_eq!(get_tab_at_position(Rect::new(4, 2, 10, 3), 14, 2, 5, 0), None);
    assert_eq!(get_tab_at_position(Rect::new(4, 2, 10, 3), 13, 3, 5, 0), None);
    assert_eq!(get_tab_at_position(Rect::new(4, 2, 10, 3), 5, 2, 0, 0), None);
    assert_eq!(calculate_tab_bar_height(usize::MAX, true), 3);
}

#[test]
fn shortcuts_hint_and_clickable_areas() {
    let a = areas();
    assert!(is_shortcuts_hint_clicked(&a, 0, 36));
    assert!(!is_shortcuts_hint_clicked(&a, 0, 35));
    assert!(is_clickable_area(&a, 0, 0));
    assert!(is_clickable_area(&a, 3, 2));
    assert!(is_clickable_area(&a, 50, 22));
    assert!(is_clickable_area(&a, 0, 37));
    // The log, the status panel and the control area do not count.
    assert!(!is_clickable_area(&a, 50, 5));
    assert!(!is_clickable_area(&a, 3, 25));
    assert!(!is_clickable_area(&a, 50, 29));
    let app = AppState::new();
    assert_eq!(get_cursor_type(&app, &a, 50, 22), CursorType::Text);
    assert_eq!(get_cursor_type(&app, &a, 5, 36), CursorType::Help);
    assert_eq!(get_cursor_type(&app, &a, 3, 2), CursorType::Pointer);
    assert_eq!(get_cursor_type(&app, &a, 50, 5), CursorType::Default);
}

#[test]
fn click_meaning_in_order_of_precedence() {
    let a = areas();
    let mut app = AppState::new();
    assert_eq!(handle_mouse_click(&app, &a, 9, 0, None), MouseAction::OpenMenu(1));
    assert_eq!(handle_mouse_click(&app, &a, 7, 0, None), MouseAction::NoAction);
    assert_eq!(handle_mouse_click(&app, &a, 5, 36, None), MouseAction::ShowShortcutsHelp);
    assert_eq!(
        handle_mouse_click(&app, &a, 50, 22, None),
        MouseAction::FocusField(FocusedField::TxInput)
    );
    assert_eq!(handle_mouse_click(&app, &a, 50, 29, None), MouseAction::NoAction);
    let dropdown = Rect::new(8, 1, 25, 7);
    app.menu_state = MenuState::Dropdown(1, 0);
    assert_eq!(
        handle_mouse_click(&app, &a, 10, 4, Some(dropdown)),
        MouseAction::SelectMenuItem(1, 3)
    );
    assert_eq!(
        handle_mouse_click(&app, &a, 10, 1, Some(dropdown)),
        MouseAction::SelectMenuItem(1, 0)
    );
    assert_eq!(handle_mouse_click(&app, &a, 40, 4, Some(dropdown)), MouseAction::CloseMenu);
    assert_eq!(handle_mouse_click(&app, &a, 9, 0, None), MouseAction::OpenMenu(1));
    app.show_shortcuts_help = true;
    assert_eq!(
        handle_mouse_click(&app, &a, 10, 4, Some(dropdown)),
        MouseAction::CloseShortcutsHelp
    );
}

#[test]
fn hover_and_scroll_meanings() {
    let a = areas();
    let app = AppState::new();
    assert_eq!(handle_mouse_hover(&app, &a, 0, 0), Some("File operations".to_string()));
    assert_eq!(handle_mouse_hover(&app, &a, 40, 0), Some("Help and information".to_string()));
    assert_eq!(
        handle_mouse_hover(&app, &a, 0, 36),
        Some("Click to show keyboard shortcuts".to_string())
    );
    assert_eq!(handle_mouse_hover(&app, &a, 3, 7), Some("Select baud rate".to_string()));
    assert_eq!(handle_mouse_hover(&app, &a, 50, 5), Some("Serial communication log".to_string()));
    assert_eq!(handle_mouse_hover(&app, &a, 50, 29), None);
    assert_eq!(
        handle_mouse_scroll(&app, &a, 50, 5, ScrollDirection::Up),
        Some(ScrollAction::ScrollUp(3))
    );
    assert_eq!(
        handle_mouse_scroll(&app, &a, 50, 5, ScrollDirection::Down),
        Some(ScrollAction::ScrollDown(3))
    );
    assert_eq!(handle_mouse_scroll(&app, &a, 3, 2, ScrollDirection::Down), None);
}

#[test]
fn dropdown_geometry() {
    let bar = Rect::new(3, 2, 80, 1);
    assert_eq!(
        calculate_dropdown_area(bar, 2, 7, Language::English),
        Rect::new(22, 3, 25, 9)
    );
    assert_eq!(
        calculate_dropdown_area(bar, 4, 0, Language::Chinese),
        Rect::new(35, 3, 25, 2)
    );
    let area = Rect::new(0, 65530, 20, 10);
    assert_eq!(calculate_dropdown_item(area, 65535), 5);
    assert_eq!(calculate_dropdown_item(Rect::new(0, 1, 20, 5), 6), 0); // below the area
    assert_eq!(calculate_dropdown_item(Rect::new(0, 1, 20, 5), 5), 4);
}

#[test]
fn the_dropdown_is_drawn_where_clicks_are_looked_for() {
    let bar = Rect::new(0, 0, 80, 1);
    // "Save Config" and "Load Config" take 11 columns, and six are added.
    assert_eq!(menu_dropdown_area(bar, 0, Language::English), Some(Rect::new(0, 1, 17, 6)));
    assert_eq!(menu_dropdown_area(bar, 1, Language::English), Some(Rect::new(8, 1, 23, 7)));
    assert_eq!(menu_dropdown_area(bar, 3, Language::Chinese), Some(Rect::new(24, 1, 14, 3)));
    // An index that is no menu gives the width of ten columns and no rows.
    assert_eq!(menu_dropdown_area(bar, 5, Language::English), Some(Rect::new(47, 1, 16, 2)));
    assert_eq!(
        menu_dropdown_area(Rect::new(3, 9, 10, 1), 4, Language::Chinese),
        Some(Rect::new(35, 10, 16, 5))
    );
    assert_eq!(menu_dropdown_area(Rect::new(65530, 0, 5, 1), 1, Language::English), None);
    assert_eq!(menu_dropdown_area(Rect::new(0, 65535, 5, 1), 0, Language::English), None);
    assert_eq!(
        menu_dropdown_area(Rect::new(65535, 65534, 5, 1), 0, Language::English),
        Some(Rect::new(65535, 65535, 17, 6))
    );
}

#[test]
fn the_log_scrolls_to_its_end_or_to_the_offset() {
    // 30 lines in an area of 20 rows: 18 lines fit, so line 12 is the last top line.
    assert_eq!(scroll_top(30, 20, true, 0), 12);
    assert_eq!(scroll_top(30, 20, false, 0), 0);
    assert_eq!(scroll_top(30, 20, false, 5), 5);
    assert_eq!(scroll_top(30, 20, false, 12), 12);
    assert_eq!(scroll_top(30, 20, false, 13), 12);
    assert_eq!(scroll_top(10, 20, true, 7), 0);
    assert_eq!(scroll_top(10, 20, false, 7), 0);
    // An area without room still shows one line.
    assert_eq!(scroll_top(10, 0, true, 0), 9);
    assert_eq!(scroll_top(10, 2, false, 65535), 9);
    assert_eq!(scroll_top(0, 0, true, 3), 0);
}
