use tabkit::tabs::Tab;
use tabkit::tabs::TabContent;
use tabkit::tabs::file_name_of;
use tabkit::tabs::get_tab_display_name;

#[test]
fn display_name_is_file_name() {
    let tab = Tab::new("/home/me/notes/todo.md".to_string());
    assert_eq!(get_tab_display_name(&tab), "todo.md");
}

#[test]
fn display_name_of_bare_file() {
    let tab = Tab::new("a.md".to_string());
    assert_eq!(get_tab_display_name(&tab), "a.md");
}

#[test]
fn display_name_falls_back_when_name_empty() {
    let tab = Tab::new("/home/me/".to_string());
    assert_eq!(get_tab_display_name(&tab), "Unnamed file");
    let tab = Tab::new("".to_string());
    assert_eq!(get_tab_display_name(&tab), "Unnamed file");
}

#[test]
fn display_name_of_error_tab_uses_path() {
    let tab = Tab {
        content: TabContent::FileError("/x/y.md".to_string(), "unreadable".to_string()),
    };
    assert_eq!(get_tab_display_name(&tab), "y.md");
}

#[test]
fn display_name_of_special_tabs() {
    let welcome = Tab { content: TabContent::Inline("hello".to_string()) };
    assert_eq!(get_tab_display_name(&welcome), "Welcome");
    let preferences = Tab { content: TabContent::Preferences };
    assert_eq!(get_tab_display_name(&preferences), "Preferences");
    assert_eq!(get_tab_display_name(&Tab::empty()), "No file");
}

#[test]
fn file_name_of_strips_directories() {
    assert_eq!(file_name_of("/a/b/c.txt"), "c.txt");
    assert_eq!(file_name_of("c.txt"), "c.txt");
    assert_eq!(file_name_of("/a/b/"), "");
    assert_eq!(file_name_of(""), "");
}

#[test]
fn file_accessor_distinguishes_kinds() {
    assert_eq!(Tab::new("/a.md".to_string()).file().unwrap().as_str(), "/a.md");
    let error_tab = Tab {
        content: TabContent::FileError("/b.md".to_string(), "gone".to_string()),
    };
    assert_eq!(error_tab.file().unwrap().as_str(), "/b.md");
    assert!(Tab::empty().file().is_none());
    assert!(Tab { content: TabContent::Preferences }.file().is_none());
}

#[test]
fn duplicate_copies_by_value() {
    let tab = Tab::new("/a.md".to_string());
    let copy = tab.duplicate();
    assert_eq!(copy, tab);
}

#[test]
fn default_tab_is_empty_placeholder() {
    assert_eq!(Tab::default(), Tab::empty());
    assert!(!Tab::default().is_file_backed());
}

#[test]
fn file_backed_only_for_file_content() {
    assert!(Tab::new("/a.md".to_string()).is_file_backed());
    let error_tab = Tab {
        content: TabContent::FileError("/b.md".to_string(), "gone".to_string()),
    };
    assert!(error_tab.is_file_backed());
    assert!(!Tab { content: TabContent::Inline("hi".to_string()) }.is_file_backed());
    assert!(!Tab { content: TabContent::Preferences }.is_file_backed());
}
