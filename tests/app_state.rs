use rtfm_core::app_state::{name_is_hidden, DirEntry, TabState};
use rtfm_core::preview::PreviewState;

fn entry(name: &str, is_dir: bool) -> DirEntry {
    DirEntry { name: name.to_string(), path: format!("/home/u/{}", name), is_dir }
}

fn tab_with(entries: Vec<DirEntry>) -> TabState {
    let mut tab = TabState::new(0, "/home/u".to_string());
    tab.entries = entries;
    tab
}

#[test]
fn cursor_stays_within_listing() {
    let mut tab = tab_with(vec![entry("a", true), entry("b.txt", false)]);
    assert!(tab.move_cursor_up(false).is_none());
    assert_eq!(tab.cursor, 0);
    let id = tab.move_cursor_down(false);
    assert_eq!(tab.cursor, 1);
    assert!(id.is_some());
    assert_eq!(tab.preview.current, id);
    assert!(matches!(tab.preview.state, PreviewState::Loading));
    assert!(tab.move_cursor_down(false).is_none());
    assert_eq!(tab.cursor, 1);
    assert!(tab.move_cursor_up(false).is_none());
    assert_eq!(tab.cursor, 0);
    assert!(tab.preview.current.is_none());
    assert!(matches!(tab.preview.state, PreviewState::Loading));
}

#[test]
fn empty_listing_keeps_cursor_and_shows_loading() {
    let mut tab = tab_with(Vec::new());
    assert!(tab.move_cursor_down(false).is_none());
    assert_eq!(tab.cursor, 0);
    assert!(tab.update_preview(false).is_none());
    assert!(matches!(tab.preview.state, PreviewState::Loading));
    assert!(tab.preview.current.is_none());
    assert_eq!(tab.get_selected_entry_path(), None);
}

#[test]
fn new_preview_id_differs_from_the_last() {
    let mut tab = tab_with(vec![entry("a.txt", false), entry("b.txt", false)]);
    let first = tab.update_preview(false).unwrap();
    let second = tab.update_preview(false).unwrap();
    assert_ne!(first, second);
    assert_eq!(tab.preview.current, Some(second));
}

#[test]
fn enter_selected_directory_only() {
    let mut tab = tab_with(vec![entry("docs", true), entry("n.md", false)]);
    assert_eq!(tab.get_selected_entry_path(), Some("/home/u/docs".to_string()));
    assert!(tab.enter_directory(false));
    assert_eq!(tab.current_dir, "/home/u/docs");
    assert!(tab.entries.is_empty());
    let mut tab = tab_with(vec![entry("docs", true), entry("n.md", false)]);
    tab.cursor = 1;
    assert!(!tab.enter_directory(false));
    assert_eq!(tab.current_dir, "/home/u");
    assert_eq!(tab.entries.len(), 2);
}

#[test]
fn leave_goes_to_parent_until_root() {
    let mut tab = TabState::new(1, "/home/u".to_string());
    assert!(tab.leave_directory(false));
    assert_eq!(tab.current_dir, "/home");
    assert!(tab.leave_directory(false));
    assert_eq!(tab.current_dir, "/");
    assert!(!tab.leave_directory(false));
    assert_eq!(tab.current_dir, "/");
}

#[test]
fn set_current_dir_empties_listing() {
    let mut tab = tab_with(vec![entry("a", false)]);
    tab.cursor = 0;
    tab.set_current_dir("/tmp".to_string(), true);
    assert_eq!(tab.current_dir, "/tmp");
    assert!(tab.entries.is_empty());
    assert_eq!(tab.cursor, 0);
}

#[test]
fn hidden_names_start_with_a_dot() {
    assert!(name_is_hidden(&".git".to_string()));
    assert!(!name_is_hidden(&"a.git".to_string()));
    assert!(!name_is_hidden(&String::new()));
}
