use tuiserial::i18n::t;
use tuiserial::menu_def::{
    calculate_menu_x_offset, find_clicked_menu, MenuAction, MENU_BAR,
};
use tuiserial::types::Language;

#[test]
fn test_translation_exists() {
    assert_eq!(t("menu.file", Language::English), "File");
    assert_eq!(t("menu.file", Language::Chinese), "文件");
}

#[test]
fn test_fallback_to_key() {
    assert_eq!(t("nonexistent.key", Language::English), "nonexistent.key");
}

#[test]
fn test_menu_bar_structure() {
    assert_eq!(MENU_BAR.menu_count(), 5);
    assert_eq!(MENU_BAR.get_item_count(0), 4); // File: Save, Load, Sep, Exit
    assert_eq!(MENU_BAR.get_item_count(1), 5); // Session
    assert_eq!(MENU_BAR.get_item_count(2), 7); // View
    assert_eq!(MENU_BAR.get_item_count(3), 1); // Settings
    assert_eq!(MENU_BAR.get_item_count(4), 3); // Help: Shortcuts, Sep, About
}

#[test]
fn test_menu_actions() {
    assert_eq!(MENU_BAR.get_action(0, 0), Some(MenuAction::SaveConfig));
    assert_eq!(MENU_BAR.get_action(0, 3), Some(MenuAction::Exit));
    assert_eq!(MENU_BAR.get_action(4, 0), Some(MenuAction::ShowShortcuts));
}

#[test]
fn test_separator_detection() {
    assert!(MenuAction::Separator.is_separator());
    assert!(!MenuAction::SaveConfig.is_separator());
}

#[test]
fn test_invalid_indices() {
    assert_eq!(MENU_BAR.get_action(99, 0), None);
    assert_eq!(MENU_BAR.get_action(0, 99), None);
}

#[test]
fn test_menu_label_keys() {
    assert_eq!(MENU_BAR.get_menu_label_key(0), Some("menu.file"));
    assert_eq!(MENU_BAR.get_menu_label_key(1), Some("menu.session"));
    assert_eq!(MENU_BAR.get_menu_label_key(4), Some("menu.help"));
}

#[test]
fn translations_of_both_languages() {
    assert_eq!(t("notify.config_saved", Language::English), "Configuration saved");
    assert_eq!(t("notify.config_saved", Language::Chinese), "配置已保存");
    assert_eq!(t("shortcuts.quit", Language::English), "Ctrl+Q: Quit");
    assert_eq!(t("empty.shortcuts", Language::Chinese), "x - 切换 HEX/TEXT 显示模式 | c - 清空消息日志 | a - 自动滚动开关");
    assert_eq!(t("append.lf", Language::English), "\\n");
    assert_eq!(t("", Language::Chinese), "");
    assert_eq!(t("menu.fil", Language::Chinese), "menu.fil");
    assert_eq!(t("menu.file ", Language::English), "menu.file ");
}

#[test]
fn menus_hold_their_items_in_order() {
    let file = MENU_BAR.get_menu(0).unwrap();
    assert_eq!(file.label_key, "menu.file");
    assert_eq!(file.item_count(), 4);
    assert_eq!(
        file.items,
        vec![
            MenuAction::SaveConfig,
            MenuAction::LoadConfig,
            MenuAction::Separator,
            MenuAction::Exit
        ]
    );
    assert_eq!(file.get_item(2), Some(MenuAction::Separator));
    assert_eq!(file.get_item(4), None);
    let view = MENU_BAR.get_menu(2).unwrap();
    assert_eq!(view.label_key, "menu.view");
    assert_eq!(view.get_item(6), Some(MenuAction::ViewPrevPane));
    assert_eq!(MENU_BAR.get_menu(3).unwrap().items, vec![MenuAction::ToggleLanguage]);
    assert!(MENU_BAR.get_menu(5).is_none());
    assert_eq!(MENU_BAR.get_menu_label_key(5), None);
    assert_eq!(MENU_BAR.get_item_count(5), 0);
    assert_eq!(MENU_BAR.get_action(1, 4), Some(MenuAction::CloseSession));
    assert_eq!(MENU_BAR.get_action(1, 5), None);
}

#[test]
fn every_item_but_the_separator_has_a_label() {
    for menu in 0..5 {
        for item in 0..MENU_BAR.get_item_count(menu) {
            let action = MENU_BAR.get_action(menu, item).unwrap();
            if action.is_separator() {
                assert_eq!(action.label_key(), "");
            } else {
                assert!(action.label_key().starts_with("menu."));
                assert_ne!(t(action.label_key(), Language::English), action.label_key());
                assert_ne!(t(action.label_key(), Language::Chinese), action.label_key());
            }
        }
    }
    assert_eq!(MenuAction::ViewGrid2x2.label_key(), "menu.view.grid_2x2");
    assert_eq!(MenuAction::ToggleLanguage.label_key(), "menu.settings.toggle_language");
}

#[test]
fn menu_offsets_add_label_width_and_four() {
    // File(4) Session(7) View(4) Settings(8) Help(4)
    let en: Vec<u16> = (0..7).map(|i| calculate_menu_x_offset(i, Language::English)).collect();
    assert_eq!(en, vec![0, 8, 19, 27, 39, 47, 47]);
    // Every Chinese label takes four columns.
    let zh: Vec<u16> = (0..7).map(|i| calculate_menu_x_offset(i, Language::Chinese)).collect();
    assert_eq!(zh, vec![0, 8, 16, 24, 32, 40, 40]);
    assert_eq!(calculate_menu_x_offset(usize::MAX, Language::English), 47);
}

#[test]
fn clicked_menu_by_column() {
    let en: Vec<Option<usize>> = [0u16, 5, 6, 7, 8, 16, 17, 19, 24, 25, 27, 36, 37, 39, 44, 45, 500]
        .iter()
        .map(|x| find_clicked_menu(*x, Language::English))
        .collect();
    assert_eq!(
        en,
        vec![
            Some(0), Some(0), None, None, Some(1), Some(1), None, Some(2), Some(2), None,
            Some(3), Some(3), None, Some(4), Some(4), None, None
        ]
    );
    assert_eq!(find_clicked_menu(16, Language::Chinese), Some(2));
    assert_eq!(find_clicked_menu(21, Language::Chinese), Some(2));
    assert_eq!(find_clicked_menu(22, Language::Chinese), None);
    assert_eq!(find_clicked_menu(37, Language::Chinese), Some(4));
    assert_eq!(find_clicked_menu(38, Language::Chinese), None);
}
