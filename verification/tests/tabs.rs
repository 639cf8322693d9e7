use tuiserial::layout::LayoutMode;
use tuiserial::tabs::TabsManager;

fn wait_a_little() {
    let start = std::time::Instant::now();
    while start.elapsed().as_millis() < 3 {}
}

#[test]
fn test_tabs_manager_creation() {
    let manager = TabsManager::new();
    assert_eq!(manager.sessions().len(), 1);
    assert_eq!(manager.panes().pane_count(), 1);
    assert_eq!(manager.layout_mode(), LayoutMode::Single);
}

#[test]
fn test_add_remove_sessions() {
    let mut manager = TabsManager::new();

    let idx1 = manager.add_session(Some("Test 1".to_string()));
    let idx2 = manager.add_session(Some("Test 2".to_string()));

    assert_eq!(manager.sessions().len(), 3);
    assert_eq!(idx2, 2);

    manager.remove_session(idx1);
    assert_eq!(manager.sessions().len(), 2);
}

#[test]
fn test_layout_switching() {
    let mut manager = TabsManager::new();

    assert_eq!(manager.layout_mode(), LayoutMode::Single);

    manager.next_layout();
    assert_eq!(manager.layout_mode(), LayoutMode::SplitHorizontal);
    assert_eq!(manager.visible_pane_count(), 2);

    manager.next_layout();
    assert_eq!(manager.layout_mode(), LayoutMode::SplitVertical);
}

#[test]
fn test_pane_focus() {
    let mut manager = TabsManager::new();
    manager.next_layout(); // Switch to split mode

    assert_eq!(manager.panes().focused_pane(), 0);

    manager.focus_next_pane();
    assert_eq!(manager.panes().focused_pane(), 1);

    manager.focus_prev_pane();
    assert_eq!(manager.panes().focused_pane(), 0);
}

fn check_invariants(manager: &TabsManager) {
    let count = manager.sessions().len();
    assert!(count >= 1);
    assert!(manager.sessions().active_index() < count);
    assert_eq!(manager.visible_pane_count(), manager.layout_mode().max_panes());
    assert!(manager.panes().focused_pane() < manager.visible_pane_count());
    for entry in manager.panes().pane_mappings() {
        assert!(*entry < count);
    }
}

#[test]
fn next_layout_creates_the_session_for_the_new_pane() {
    let mut manager = TabsManager::new();
    manager.next_layout();
    assert_eq!(manager.layout_mode(), LayoutMode::SplitHorizontal);
    assert_eq!(manager.sessions().len(), 2);
    assert_eq!(manager.panes().pane_mappings(), &[0, 1]);
    assert_eq!(manager.sessions().get_session(1).unwrap().name, "Session 2");
    assert_eq!(manager.sessions().get_session(1).unwrap().id, 1);
    check_invariants(&manager);
}

#[test]
fn prev_layout_creates_the_sessions_for_the_new_panes() {
    let mut manager = TabsManager::new();
    manager.prev_layout();
    assert_eq!(manager.layout_mode(), LayoutMode::Grid2x1);
    assert_eq!(manager.visible_pane_count(), 3);
    assert_eq!(manager.sessions().len(), 3);
    assert_eq!(manager.panes().pane_mappings(), &[0, 1, 2]);
    let names: Vec<String> =
        manager.sessions().sessions().iter().map(|s| s.name.clone()).collect();
    assert_eq!(names, vec!["Session 1", "Session 2", "Session 3"]);
    check_invariants(&manager);
}

#[test]
fn set_layout_mode_fills_up_and_never_removes_sessions() {
    let mut manager = TabsManager::new();
    manager.set_layout_mode(LayoutMode::Grid2x2);
    assert_eq!(manager.sessions().len(), 4);
    assert_eq!(manager.panes().pane_mappings(), &[0, 1, 2, 3]);
    check_invariants(&manager);
    manager.set_layout_mode(LayoutMode::Single);
    assert_eq!(manager.sessions().len(), 4);
    assert_eq!(manager.panes().pane_mappings(), &[0]);
    check_invariants(&manager);
    // Sessions named after their index, identifiers taken in order.
    manager.remove_session(1);
    manager.remove_session(1);
    manager.set_layout_mode(LayoutMode::Grid1x2);
    let got: Vec<(usize, String)> =
        manager.sessions().sessions().iter().map(|s| (s.id, s.name.clone())).collect();
    assert_eq!(
        got,
        vec![
            (0, "Session 1".to_string()),
            (3, "Session 4".to_string()),
            (4, "Session 3".to_string()),
        ]
    );
    check_invariants(&manager);
}

#[test]
fn invariants_hold_around_the_whole_layout_cycle() {
    let mut manager = TabsManager::new();
    for _ in 0..13 {
        manager.next_layout();
        check_invariants(&manager);
    }
    for _ in 0..13 {
        manager.prev_layout();
        check_invariants(&manager);
    }
    for mode in LayoutMode::all() {
        manager.set_layout_mode(mode);
        assert_eq!(manager.layout_mode(), mode);
        check_invariants(&manager);
    }
    assert_eq!(manager.sessions().len(), 4);
}

#[test]
fn removal_repairs_the_panes() {
    let mut manager = TabsManager::new();
    manager.set_layout_mode(LayoutMode::Grid2x2);
    assert_eq!(manager.panes().pane_mappings(), &[0, 1, 2, 3]);
    let removed = manager.remove_session(1).unwrap();
    assert_eq!(removed.id, 1);
    // Only the pane that pointed beyond the sessions left is redirected.
    assert_eq!(manager.panes().pane_mappings(), &[0, 1, 2, 2]);
    check_invariants(&manager);
    manager.remove_session(0);
    assert_eq!(manager.panes().pane_mappings(), &[0, 1, 1, 1]);
    manager.remove_session(0);
    assert_eq!(manager.panes().pane_mappings(), &[0, 0, 0, 0]);
    check_invariants(&manager);
    // The last session cannot be removed.
    assert!(manager.remove_session(0).is_none());
    assert!(manager.remove_session(7).is_none());
    assert_eq!(manager.sessions().len(), 1);
    check_invariants(&manager);
}

#[test]
fn sessions_are_reached_through_the_panes() {
    let mut manager = TabsManager::new();
    manager.set_layout_mode(LayoutMode::SplitVertical);
    assert_eq!(manager.focused_pane_session().unwrap().id, 0);
    assert_eq!(manager.session_for_pane(1).unwrap().id, 1);
    assert!(manager.session_for_pane(2).is_none());
    assert!(manager.session_for_pane_mut(2).is_none());
    manager.session_for_pane_mut(1).unwrap().name = "right".to_string();
    assert_eq!(manager.sessions().get_session(1).unwrap().name, "right");
    manager.focus_next_pane();
    assert!(manager.is_pane_focused(1));
    assert!(!manager.is_pane_focused(0));
    assert_eq!(manager.focused_pane_session().unwrap().name, "right");
    manager.focused_pane_session_mut().unwrap().scroll_offset = 4;
    assert_eq!(manager.sessions().get_session(1).unwrap().scroll_offset, 4);
    assert_eq!(manager.active_session().id, 0);
    manager.active_session_mut().name = "left".to_string();
    assert_eq!(manager.sessions().get_session(0).unwrap().name, "left");
    // A pane that points nowhere shows no session.
    manager.panes_mut().set_pane_session(0, 9);
    assert!(manager.session_for_pane(0).is_none());
    manager.sessions_mut().switch_to(1);
    assert_eq!(manager.active_session().id, 1);
}

#[test]
fn cycling_the_focused_pane_wraps_over_the_sessions() {
    let mut manager = TabsManager::new();
    manager.add_session(None);
    manager.add_session(None);
    assert_eq!(manager.panes().focused_session(), Some(0));
    manager.cycle_focused_pane_session();
    assert_eq!(manager.panes().focused_session(), Some(1));
    manager.cycle_focused_pane_session();
    manager.cycle_focused_pane_session();
    assert_eq!(manager.panes().focused_session(), Some(0));
    manager.cycle_focused_pane_session_prev();
    assert_eq!(manager.panes().focused_session(), Some(2));
    manager.cycle_focused_pane_session_prev();
    assert_eq!(manager.panes().focused_session(), Some(1));
    check_invariants(&manager);
}

#[test]
fn tab_bar_and_controls_switches() {
    let mut manager = TabsManager::default();
    assert!(!manager.should_show_tabs());
    assert!(manager.should_show_layout_controls());
    manager.add_session_with_port("COM2".to_string(), None);
    assert!(manager.should_show_tabs());
    assert_eq!(manager.sessions().get_session(1).unwrap().name, "Session 2 - COM2");
    manager.set_show_tabs(false);
    assert!(!manager.should_show_tabs());
    manager.set_show_layout_controls(false);
    assert!(!manager.should_show_layout_controls());
    manager.set_show_tabs(true);
    assert!(manager.should_show_tabs());
}

#[test]
fn update_notifications_reaches_every_session() {
    let mut manager = TabsManager::new();
    manager.add_session(None);
    manager.session_for_pane_mut(0).unwrap().add_info("a");
    manager.sessions_mut().get_session_mut(1).unwrap().add_info("b");
    manager.sessions_mut().get_session_mut(1).unwrap().notifications[0].duration_ms = 0;
    wait_a_little();
    manager.update_notifications();
    assert_eq!(manager.sessions().get_session(0).unwrap().notifications.len(), 1);
    assert_eq!(manager.sessions().get_session(1).unwrap().notifications.len(), 0);
}

#[test]
fn validity_can_be_checked_after_direct_changes() {
    let mut manager = TabsManager::new();
    assert!(manager.is_valid());
    manager.set_layout_mode(LayoutMode::SplitHorizontal);
    assert!(manager.is_valid());
    assert!(manager.panes().is_valid());
    assert!(manager.sessions().is_valid());
    assert!(manager.panes().shows_sessions_below(2));
    assert!(!manager.panes().shows_sessions_below(1));
    // A pane that points at no session makes the state invalid.
    manager.panes_mut().set_pane_session(1, 2);
    assert!(!manager.is_valid());
    manager.panes_mut().reset_mappings();
    assert!(manager.is_valid());
    // So does a layout change behind the controller's back.
    manager.panes_mut().set_layout_mode(LayoutMode::Grid2x2);
    assert!(manager.panes().is_valid());
    assert!(!manager.is_valid());
    manager.add_session(None);
    manager.add_session(None);
    assert!(manager.is_valid());
    // And so do two sessions with one identifier.
    manager.sessions_mut().sessions_mut()[3].id = 0;
    assert!(!manager.sessions().is_valid());
    assert!(!manager.is_valid());
    manager.sessions_mut().sessions_mut()[3].id = 9;
    assert!(!manager.is_valid());
    manager.sessions_mut().sessions_mut()[3].id = 3;
    assert!(manager.is_valid());
}
