use tabkit::WindowId;
use tabkit::app_state::AppState;
use tabkit::drag_state::TabDragState;
use tabkit::drag_tracking::DragRegistry;
use tabkit::drag_tracking::DraggedTab;

#[test]
fn session_starts_idle() {
    let s = TabDragState::new();
    assert_eq!(s.dragging_tab_index, None);
    assert_eq!(s.drop_target_index, None);
    assert!(!s.animating);
    assert_eq!(TabDragState::default(), s);
}

#[test]
fn session_tracks_a_gesture() {
    let mut s = TabDragState::new();
    s.start_drag(2);
    assert_eq!(s.dragging_tab_index, Some(2));
    assert_eq!(s.drop_target_index, None);

    s.update_drop_target(Some(4));
    assert_eq!(s.drop_target_index, Some(4));
    s.update_drop_target(None);
    assert_eq!(s.drop_target_index, None);

    s.end_drag();
    assert_eq!(s.dragging_tab_index, None);
    assert_eq!(s.drop_target_index, None);
}

#[test]
fn new_drag_supersedes_stale_state() {
    let mut s = TabDragState::new();
    s.start_drag(1);
    s.update_drop_target(Some(3));
    s.trigger_animation();
    s.start_drag(5);
    assert_eq!(s.dragging_tab_index, Some(5));
    assert_eq!(s.drop_target_index, None);
    assert!(!s.animating);
}

#[test]
fn settle_animation_flag_raises_and_clears() {
    let mut s = TabDragState::new();
    s.trigger_animation();
    assert!(s.animating);
    s.finish_animation();
    assert!(!s.animating);
}

#[test]
fn registry_records_one_drag() {
    let mut r = DragRegistry::new();
    assert!(!r.is_tab_dragging());
    assert_eq!(r.get_dragged_tab(), None);

    r.start_tab_drag(WindowId(7), 3, 12, 4);
    assert!(r.is_tab_dragging());
    assert_eq!(
        r.get_dragged_tab(),
        Some(DraggedTab {
            source_window_id: WindowId(7),
            source_tab_index: 3,
            offset_x: 12,
            offset_y: 4,
            target_window_id: None,
        })
    );

    r.end_tab_drag();
    assert!(!r.is_tab_dragging());
    assert_eq!(r.get_dragged_tab(), None);
}

#[test]
fn registry_new_drag_overwrites_old_record() {
    let mut r = DragRegistry::new();
    r.start_tab_drag(WindowId(1), 0, 1, 1);
    r.set_target_window(WindowId(9));
    r.start_tab_drag(WindowId(2), 5, 2, 2);
    let d = r.get_dragged_tab().unwrap();
    assert_eq!(d.source_window_id, WindowId(2));
    assert_eq!(d.source_tab_index, 5);
    assert_eq!(d.target_window_id, None);
}

#[test]
fn registry_tracks_candidate_target() {
    let mut r = DragRegistry::new();
    r.start_tab_drag(WindowId(1), 0, 0, 0);

    r.set_target_window(WindowId(4));
    assert_eq!(r.get_dragged_tab().unwrap().target_window_id, Some(WindowId(4)));

    r.clear_target_window();
    assert_eq!(r.get_dragged_tab().unwrap().target_window_id, None);
}

#[test]
fn registry_target_updates_need_a_drag() {
    let mut r = DragRegistry::new();
    r.set_target_window(WindowId(4));
    assert_eq!(r.get_dragged_tab(), None);
    r.clear_target_window();
    assert_eq!(r.get_dragged_tab(), None);
}

#[test]
fn fresh_window_state() {
    let mut state = AppState::default();
    assert_eq!(state.tabs.len(), 1);
    assert_eq!(state.tabs.active_tab, 0);
    assert_eq!(state.directory, None);
    assert_eq!(state.tab_drag_state, TabDragState::new());

    state.set_root_directory("/projects/notes".to_string());
    assert_eq!(state.directory, Some("/projects/notes".to_string()));
    assert_eq!(state.tabs.len(), 1);
}
