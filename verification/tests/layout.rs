use tuiserial::layout::{LayoutMode, PaneManager, Rect};

#[test]
fn test_layout_mode_cycle() {
    let mode = LayoutMode::Single;
    assert_eq!(mode.next(), LayoutMode::SplitHorizontal);
    assert_eq!(mode.prev(), LayoutMode::Grid2x1);
}

#[test]
fn test_layout_max_panes() {
    assert_eq!(LayoutMode::Single.max_panes(), 1);
    assert_eq!(LayoutMode::SplitHorizontal.max_panes(), 2);
    assert_eq!(LayoutMode::Grid2x2.max_panes(), 4);
}

#[test]
fn test_pane_manager_focus() {
    let mut manager = PaneManager::new();
    manager.set_layout_mode(LayoutMode::Grid2x2);

    assert_eq!(manager.pane_count(), 4);
    assert_eq!(manager.focused_pane(), 0);

    manager.focus_next_pane();
    assert_eq!(manager.focused_pane(), 1);

    manager.focus_prev_pane();
    assert_eq!(manager.focused_pane(), 0);
}

#[test]
fn test_pane_manager_layout_change() {
    let mut manager = PaneManager::new();
    assert_eq!(manager.pane_count(), 1);

    manager.next_layout();
    assert_eq!(manager.layout_mode(), LayoutMode::SplitHorizontal);
    assert_eq!(manager.pane_count(), 2);

    manager.next_layout();
    assert_eq!(manager.layout_mode(), LayoutMode::SplitVertical);
    assert_eq!(manager.pane_count(), 2);
}

#[test]
fn test_cycle_sessions() {
    let mut manager = PaneManager::new();
    manager.set_layout_mode(LayoutMode::SplitHorizontal);

    assert_eq!(manager.focused_session(), Some(0));
    manager.cycle_focused_session(3);
    assert_eq!(manager.focused_session(), Some(1));
    manager.cycle_focused_session(3);
    assert_eq!(manager.focused_session(), Some(2));
    manager.cycle_focused_session(3);
    assert_eq!(manager.focused_session(), Some(0));
}

#[test]
fn catalogue_order_names_and_pane_counts() {
    let all = LayoutMode::all();
    assert_eq!(
        all,
        vec![
            LayoutMode::Single,
            LayoutMode::SplitHorizontal,
            LayoutMode::SplitVertical,
            LayoutMode::Grid2x2,
            LayoutMode::Grid1x2,
            LayoutMode::Grid2x1,
        ]
    );
    let names: Vec<&str> = all.iter().map(|m| m.name()).collect();
    assert_eq!(
        names,
        vec!["Single", "Split Horizontal", "Split Vertical", "Grid 2×2", "Grid 1×2", "Grid 2×1"]
    );
    let panes: Vec<usize> = all.iter().map(|m| m.max_panes()).collect();
    assert_eq!(panes, vec![1, 2, 2, 4, 3, 3]);
    for (i, mode) in all.iter().enumerate() {
        assert_eq!(mode.index(), i);
        assert_eq!(LayoutMode::from_index(i), *mode);
        assert_eq!(LayoutMode::from_index(i + 6), *mode);
    }
}

#[test]
fn next_and_prev_walk_the_whole_cycle() {
    let all = LayoutMode::all();
    for (i, mode) in all.iter().enumerate() {
        assert_eq!(mode.next(), all[(i + 1) % 6]);
        assert_eq!(mode.prev(), all[(i + 5) % 6]);
        assert_eq!(mode.next().prev(), *mode);
        assert_eq!(mode.prev().next(), *mode);
    }
}

#[test]
fn single_layout_is_the_whole_area() {
    let area = Rect::new(3, 4, 80, 24);
    assert_eq!(LayoutMode::Single.calculate_areas(area), vec![area]);
}

#[test]
fn split_layouts_bisect_the_area() {
    let area = Rect::new(0, 0, 80, 24);
    assert_eq!(
        LayoutMode::SplitHorizontal.calculate_areas(area),
        vec![Rect::new(0, 0, 80, 12), Rect::new(0, 12, 80, 12)]
    );
    assert_eq!(
        LayoutMode::SplitVertical.calculate_areas(area),
        vec![Rect::new(0, 0, 40, 24), Rect::new(40, 0, 40, 24)]
    );
}

#[test]
fn grid_layouts_bisect_twice() {
    let area = Rect::new(10, 2, 80, 24);
    assert_eq!(
        LayoutMode::Grid2x2.calculate_areas(area),
        vec![
            Rect::new(10, 2, 40, 12),
            Rect::new(50, 2, 40, 12),
            Rect::new(10, 14, 40, 12),
            Rect::new(50, 14, 40, 12),
        ]
    );
    assert_eq!(
        LayoutMode::Grid1x2.calculate_areas(area),
        vec![Rect::new(10, 2, 80, 12), Rect::new(10, 14, 40, 12), Rect::new(50, 14, 40, 12)]
    );
    assert_eq!(
        LayoutMode::Grid2x1.calculate_areas(area),
        vec![Rect::new(10, 2, 40, 24), Rect::new(50, 2, 40, 12), Rect::new(50, 14, 40, 12)]
    );
}

#[test]
fn every_layout_yields_its_panes_for_degenerate_areas() {
    for area in [Rect::new(0, 0, 0, 0), Rect::new(5, 5, 1, 1), Rect::new(0, 0, 1, 0)] {
        for mode in LayoutMode::all() {
            let panes = mode.calculate_areas(area);
            assert_eq!(panes.len(), mode.max_panes());
            let manager_panes = {
                let mut m = PaneManager::new();
                m.set_layout_mode(mode);
                m.calculate_areas(area)
            };
            assert_eq!(manager_panes, panes);
        }
    }
}

#[test]
fn new_registry_shows_session_zero_in_one_pane() {
    let manager = PaneManager::new();
    assert_eq!(manager.layout_mode(), LayoutMode::Single);
    assert_eq!(manager.pane_mappings(), &[0]);
    assert_eq!(manager.focused_pane(), 0);
    assert!(manager.is_pane_focused(0));
    assert!(!manager.is_pane_focused(1));
    let d = PaneManager::default();
    assert_eq!(d.pane_mappings(), &[0]);
}

#[test]
fn growing_adds_identity_slots_and_shrinking_truncates() {
    let mut manager = PaneManager::new();
    manager.set_pane_session(0, 7);
    manager.set_layout_mode(LayoutMode::Grid2x2);
    assert_eq!(manager.pane_mappings(), &[7, 1, 2, 3]);
    manager.set_pane_session(2, 9);
    assert!(manager.focus_pane(3));
    manager.set_layout_mode(LayoutMode::Grid1x2);
    assert_eq!(manager.pane_mappings(), &[7, 1, 9]);
    // The focus fell off the end and moves to the last pane.
    assert_eq!(manager.focused_pane(), 2);
    manager.prev_layout();
    assert_eq!(manager.layout_mode(), LayoutMode::Grid2x2);
    assert_eq!(manager.pane_mappings(), &[7, 1, 9, 3]);
    assert_eq!(manager.focused_pane(), 2);
    manager.set_layout_mode(LayoutMode::Single);
    assert_eq!(manager.pane_mappings(), &[7]);
    assert_eq!(manager.focused_pane(), 0);
}

#[test]
fn focus_wraps_in_both_directions() {
    let mut manager = PaneManager::new();
    manager.set_layout_mode(LayoutMode::Grid2x1);
    manager.focus_prev_pane();
    assert_eq!(manager.focused_pane(), 2);
    manager.focus_next_pane();
    assert_eq!(manager.focused_pane(), 0);
    assert!(!manager.focus_pane(3));
    assert_eq!(manager.focused_pane(), 0);
    assert!(manager.focus_pane(1));
    assert_eq!(manager.focused_pane(), 1);
}

#[test]
fn session_for_pane_and_set_pane_session_check_the_range() {
    let mut manager = PaneManager::new();
    manager.set_layout_mode(LayoutMode::SplitVertical);
    assert_eq!(manager.session_for_pane(0), Some(0));
    assert_eq!(manager.session_for_pane(1), Some(1));
    assert_eq!(manager.session_for_pane(2), None);
    manager.set_pane_session(2, 5);
    assert_eq!(manager.pane_mappings(), &[0, 1]);
    manager.set_pane_session(1, 5);
    assert_eq!(manager.pane_mappings(), &[0, 5]);
    manager.reset_mappings();
    assert_eq!(manager.pane_mappings(), &[0, 1]);
}

#[test]
fn cycling_sessions_backwards_and_with_no_sessions() {
    let mut manager = PaneManager::new();
    manager.cycle_focused_session_prev(3);
    assert_eq!(manager.focused_session(), Some(2));
    manager.cycle_focused_session_prev(3);
    assert_eq!(manager.focused_session(), Some(1));
    manager.cycle_focused_session(0);
    manager.cycle_focused_session_prev(0);
    assert_eq!(manager.focused_session(), Some(1));
    // An entry beyond the sessions comes back into range.
    manager.set_pane_session(0, usize::MAX);
    manager.cycle_focused_session(4);
    assert_eq!(manager.focused_session(), Some(0));
    manager.set_pane_session(0, 10);
    manager.cycle_focused_session(4);
    assert_eq!(manager.focused_session(), Some(3));
}

fn expected_halves(start: u16, size: u16) -> ((u16, u16), (u16, u16)) {
    let end = start.saturating_add(size);
    let len = end - start;
    let first = ((len as u32 + 1) / 2) as u16;
    ((start, first), (start + first, len - first))
}

#[test]
fn a_cut_is_in_the_middle_and_the_first_half_takes_the_odd_cell() {
    assert_eq!(
        LayoutMode::SplitVertical.calculate_areas(Rect::new(3, 1, 5, 9)),
        vec![Rect::new(3, 1, 3, 9), Rect::new(6, 1, 2, 9)]
    );
    assert_eq!(
        LayoutMode::SplitHorizontal.calculate_areas(Rect::new(3, 1, 5, 9)),
        vec![Rect::new(3, 1, 5, 5), Rect::new(3, 6, 5, 4)]
    );
    assert_eq!(
        LayoutMode::Grid2x2.calculate_areas(Rect::new(0, 0, 81, 25)),
        vec![
            Rect::new(0, 0, 41, 13),
            Rect::new(41, 0, 40, 13),
            Rect::new(0, 13, 41, 12),
            Rect::new(41, 13, 40, 12),
        ]
    );
    assert_eq!(
        LayoutMode::Grid1x2.calculate_areas(Rect::new(0, 0, 80, 24)),
        vec![Rect::new(0, 0, 80, 12), Rect::new(0, 12, 40, 12), Rect::new(40, 12, 40, 12)]
    );
    assert_eq!(
        LayoutMode::Grid2x1.calculate_areas(Rect::new(2, 2, 7, 7)),
        vec![Rect::new(2, 2, 4, 7), Rect::new(6, 2, 3, 4), Rect::new(6, 6, 3, 3)]
    );
    assert_eq!(
        LayoutMode::SplitVertical.calculate_areas(Rect::new(5, 5, 1, 1)),
        vec![Rect::new(5, 5, 1, 1), Rect::new(6, 5, 0, 1)]
    );
    assert_eq!(
        LayoutMode::SplitHorizontal.calculate_areas(Rect::new(5, 5, 0, 0)),
        vec![Rect::new(5, 5, 0, 0), Rect::new(5, 5, 0, 0)]
    );
}

#[test]
fn halves_for_many_sizes_and_positions() {
    let starts = [0u16, 1, 2, 7, 100, 999, 32767, 65000, 65534, 65535];
    let sizes = [0u16, 1, 2, 3, 4, 5, 9, 10, 11, 24, 25, 80, 81, 255, 256, 1001, 40000, 65534, 65535];
    for start in starts {
        for size in sizes {
            let ((s0, l0), (s1, l1)) = expected_halves(start, size);
            assert_eq!(
                LayoutMode::SplitVertical.calculate_areas(Rect::new(start, 9, size, 4)),
                vec![Rect::new(s0, 9, l0, 4), Rect::new(s1, 9, l1, 4)]
            );
            assert_eq!(
                LayoutMode::SplitHorizontal.calculate_areas(Rect::new(9, start, 4, size)),
                vec![Rect::new(9, s0, 4, l0), Rect::new(9, s1, 4, l1)]
            );
        }
    }
    for size in 0..300u16 {
        let ((s0, l0), (s1, l1)) = expected_halves(17, size);
        assert_eq!(
            LayoutMode::SplitVertical.calculate_areas(Rect::new(17, 0, size, 1)),
            vec![Rect::new(s0, 0, l0, 1), Rect::new(s1, 0, l1, 1)]
        );
    }
}

#[test]
fn an_area_beyond_the_largest_coordinate_is_cut_off_along_the_cut_only() {
    // Columns 65530 to 65534 are left: five cells along the cut.
    assert_eq!(
        LayoutMode::SplitVertical.calculate_areas(Rect::new(65530, 0, 10, 4)),
        vec![Rect::new(65530, 0, 3, 4), Rect::new(65533, 0, 2, 4)]
    );
    // Across the cut the width stays as it is.
    assert_eq!(
        LayoutMode::SplitHorizontal.calculate_areas(Rect::new(65530, 0, 10, 4)),
        vec![Rect::new(65530, 0, 10, 2), Rect::new(65530, 2, 10, 2)]
    );
    assert_eq!(
        LayoutMode::Grid1x2.calculate_areas(Rect::new(65530, 65533, 10, 10)),
        vec![
            Rect::new(65530, 65533, 10, 1),
            Rect::new(65530, 65534, 3, 1),
            Rect::new(65533, 65534, 2, 1),
        ]
    );
}

#[test]
fn the_same_mode_and_area_give_the_same_panes() {
    for mode in LayoutMode::all() {
        for area in [Rect::new(0, 0, 80, 24), Rect::new(1, 2, 33, 7), Rect::new(0, 0, 0, 0)] {
            let first = mode.calculate_areas(area);
            for _ in 0..5 {
                assert_eq!(mode.calculate_areas(area), first);
            }
        }
    }
}
