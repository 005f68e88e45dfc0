use tabkit::collection::TabCollection;
use tabkit::tabs::Tab;
use tabkit::tabs::TabContent;

fn three_tabs() -> Vec<Tab> {
    vec![
        Tab::new("/a.md".to_string()),
        Tab::new("/b.md".to_string()),
        Tab::new("/c.md".to_string()),
    ]
}

#[test]
fn new_collection_holds_one_empty_tab() {
    let c = TabCollection::new();
    assert_eq!(c.len(), 1);
    assert_eq!(c.tabs[0], Tab::empty());
    assert_eq!(c.active_tab, 0);
}

#[test]
fn get_tab_copies_by_value() {
    let c = TabCollection { tabs: three_tabs(), active_tab: 0 };
    assert_eq!(c.get_tab(1), Some(Tab::new("/b.md".to_string())));
    assert_eq!(c.get_tab(3), None);
}

#[test]
fn current_tab_is_the_active_one() {
    let c = TabCollection { tabs: three_tabs(), active_tab: 2 };
    assert_eq!(c.current_tab(), Some(Tab::new("/c.md".to_string())));
}

#[test]
fn switch_to_tab_ignores_stale_index() {
    let mut c = TabCollection { tabs: three_tabs(), active_tab: 0 };
    c.switch_to_tab(2);
    assert_eq!(c.active_tab, 2);
    c.switch_to_tab(9);
    assert_eq!(c.active_tab, 2);
}

#[test]
fn add_empty_tab_appends_and_can_activate() {
    let mut c = TabCollection { tabs: three_tabs(), active_tab: 1 };
    c.add_empty_tab(false);
    assert_eq!(c.len(), 4);
    assert_eq!(c.tabs[3], Tab::empty());
    assert_eq!(c.active_tab, 1);
    c.add_empty_tab(true);
    assert_eq!(c.len(), 5);
    assert_eq!(c.active_tab, 4);
}

#[test]
fn close_middle_tab_shifts_active_left() {
    let mut c = TabCollection { tabs: three_tabs(), active_tab: 2 };
    c.close_tab(0);
    assert_eq!(c.len(), 2);
    assert_eq!(c.tabs[0].file().unwrap().as_str(), "/b.md");
    assert_eq!(c.active_tab, 1);
}

#[test]
fn close_active_last_tab_moves_active_to_new_last() {
    let mut c = TabCollection { tabs: three_tabs(), active_tab: 2 };
    c.close_tab(2);
    assert_eq!(c.len(), 2);
    assert_eq!(c.active_tab, 1);
}

#[test]
fn close_sole_tab_leaves_empty_placeholder() {
    let mut c = TabCollection {
        tabs: vec![Tab::new("/a.md".to_string())],
        active_tab: 0,
    };
    c.close_tab(0);
    assert_eq!(c.len(), 1);
    assert_eq!(c.tabs[0], Tab::empty());
    assert_eq!(c.active_tab, 0);
}

#[test]
fn close_with_stale_index_is_noop() {
    let mut c = TabCollection { tabs: three_tabs(), active_tab: 1 };
    c.close_tab(7);
    assert_eq!(c.len(), 3);
    assert_eq!(c.active_tab, 1);
}

#[test]
fn sole_tab_is_never_transferable() {
    let c = TabCollection {
        tabs: vec![Tab::new("/a.md".to_string())],
        active_tab: 0,
    };
    assert!(!c.is_transferable(0));
}

#[test]
fn transferable_requires_file_backing_and_company() {
    let c = TabCollection {
        tabs: vec![
            Tab::new("/a.md".to_string()),
            Tab { content: TabContent::Preferences },
        ],
        active_tab: 0,
    };
    assert!(c.is_transferable(0));
    assert!(!c.is_transferable(1), "a preferences tab never transfers");
    assert!(!c.is_transferable(5), "a stale index never transfers");
}
