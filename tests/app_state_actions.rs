use rtfm_core::app_state::{AppState, CreateFileType, DirEntry, FocusBlock, TabState, MAX_TABS};
use rtfm_core::clipboard::ClipboardMode;
use rtfm_core::task_manager::{TaskKind, TaskStatus};

fn entry(dir: &str, name: &str, is_dir: bool) -> DirEntry {
    DirEntry { name: name.to_string(), path: format!("{}/{}", dir, name), is_dir }
}

fn state() -> AppState {
    let xdg = vec![
        ("Documents".to_string(), "/home/u/Documents".to_string()),
        ("Music".to_string(), "/home/u/Music".to_string()),
    ];
    let bookmarks = vec![("proj".to_string(), "/srv/proj".to_string())];
    let mut s = AppState::new("/home/u".to_string(), xdg, bookmarks);
    s.get_active_tab_mut().update_entries(
        false,
        vec![entry("/home/u", "b.txt", false), entry("/home/u", "a", true)],
    );
    s
}

#[test]
fn listing_puts_directories_first_and_hides_dotfiles() {
    let mut tab = TabState::new(0, "/d".to_string());
    let listing = vec![
        entry("/d", "zeta", false),
        entry("/d", ".hidden", false),
        entry("/d", "Beta", true),
        entry("/d", "alpha", false),
        entry("/d", "Alpha", true),
    ];
    tab.update_entries(false, listing.clone());
    let names: Vec<&str> = tab.entries.iter().map(|e| e.name.as_str()).collect();
    assert_eq!(names, vec!["Alpha", "Beta", "alpha", "zeta"]);
    assert_eq!(tab.cursor, 0);
    tab.update_entries(true, listing);
    let names: Vec<&str> = tab.entries.iter().map(|e| e.name.as_str()).collect();
    assert_eq!(names, vec!["Alpha", "Beta", ".hidden", "alpha", "zeta"]);
}

#[test]
fn focus_cycles_through_blocks() {
    let mut s = state();
    assert_eq!(s.focus, FocusBlock::Middle);
    s.cycle_focus();
    assert_eq!(s.focus, FocusBlock::Xdg);
    s.cycle_focus();
    assert_eq!(s.focus, FocusBlock::Bookmarks);
    s.cycle_focus();
    assert_eq!(s.focus, FocusBlock::Disks);
    s.cycle_focus();
    assert_eq!(s.focus, FocusBlock::Middle);
}

#[test]
fn left_pane_cursor_opens_the_picked_directory() {
    let mut s = state();
    s.cycle_focus();
    assert!(s.move_left_pane_cursor_down());
    assert_eq!(s.xdg_cursor, 1);
    assert_eq!(s.get_active_tab().current_dir, "/home/u/Music");
    assert!(s.move_left_pane_cursor_down());
    assert_eq!(s.xdg_cursor, 1);
    assert!(s.move_left_pane_cursor_up());
    assert_eq!(s.xdg_cursor, 0);
    assert_eq!(s.get_active_tab().current_dir, "/home/u/Documents");
    s.cycle_focus();
    assert!(s.move_left_pane_cursor_down());
    assert_eq!(s.get_active_tab().current_dir, "/srv/proj");
    s.cycle_focus();
    assert!(!s.move_left_pane_cursor_down());
}

#[test]
fn tabs_open_switch_and_close() {
    let mut s = state();
    assert!(!s.show_tabs);
    assert!(s.new_tab("/tmp".to_string()));
    assert_eq!(s.active_tab_index, 1);
    assert!(s.show_tabs);
    assert_eq!(s.get_active_tab().id, 1);
    s.next_tab();
    assert_eq!(s.active_tab_index, 0);
    s.previous_tab();
    assert_eq!(s.active_tab_index, 1);
    while s.tabs.len() < MAX_TABS {
        assert!(s.new_tab("/tmp".to_string()));
    }
    assert!(!s.new_tab("/tmp".to_string()));
    assert_eq!(s.tabs.len(), MAX_TABS);
    while s.tabs.len() > 1 {
        s.close_tab();
    }
    assert_eq!(s.active_tab_index, 0);
    assert!(!s.show_tabs);
    s.close_tab();
    assert_eq!(s.tabs.len(), 1);
}

#[test]
fn paste_adds_copy_tasks_and_keeps_clipboard() {
    let mut s = state();
    s.yank_selection();
    assert_eq!(s.clipboard.paths, vec!["/home/u/a".to_string()]);
    assert_eq!(s.clipboard.mode, Some(ClipboardMode::Copy));
    s.get_active_tab_mut().set_current_dir("/dst".to_string(), false);
    s.paste();
    let tasks = s.task_manager.get_tasks();
    assert_eq!(tasks.len(), 1);
    assert_eq!(
        tasks[0].kind,
        TaskKind::Copy { src: "/home/u/a".to_string(), dest: "/dst/a".to_string() }
    );
    assert_eq!(tasks[0].description, "Copy a -> /dst");
    assert_eq!(tasks[0].status, TaskStatus::Pending);
    assert_eq!(s.clipboard.paths.len(), 1);
}

#[test]
fn paste_of_cut_moves_and_empties_clipboard() {
    let mut s = state();
    s.cut_selection();
    s.get_active_tab_mut().set_current_dir("/dst".to_string(), false);
    s.paste();
    let tasks = s.task_manager.get_tasks();
    assert_eq!(
        tasks[0].kind,
        TaskKind::Move { src: "/home/u/a".to_string(), dest: "/dst/a".to_string() }
    );
    assert!(s.clipboard.paths.is_empty());
    assert_eq!(s.clipboard.mode, None);
    s.paste();
    assert_eq!(s.task_manager.get_tasks().len(), 1);
}

#[test]
fn delete_needs_confirmation() {
    let mut s = state();
    s.delete_selection();
    assert!(s.show_confirmation);
    assert_eq!(s.path_to_delete, Some("/home/u/a".to_string()));
    assert_eq!(s.confirmation_message, "Are you sure you want to delete a? (y/n)");
    s.cancel_delete();
    assert!(!s.show_confirmation);
    assert!(s.task_manager.get_tasks().is_empty());
    s.delete_selection();
    s.confirm_delete();
    let tasks = s.task_manager.get_tasks();
    assert_eq!(tasks.len(), 1);
    assert_eq!(tasks[0].kind, TaskKind::Delete { path: "/home/u/a".to_string() });
    assert_eq!(tasks[0].description, "Delete a");
    assert!(s.path_to_delete.is_none());
}

#[test]
fn create_item_uses_input_buffer() {
    let mut s = state();
    s.create_item();
    assert!(s.task_manager.get_tasks().is_empty());
    s.input_buffer = "new".to_string();
    s.create_item();
    assert!(s.task_manager.get_tasks().is_empty());
    s.create_file_type = Some(CreateFileType::Directory);
    s.create_item();
    let tasks = s.task_manager.get_tasks();
    assert_eq!(tasks[0].kind, TaskKind::CreateDirectory { path: "/home/u/new".to_string() });
    assert_eq!(tasks[0].description, "Create /home/u/new");
    assert!(s.input_buffer.is_empty());
    assert!(s.create_file_type.is_none());
}

#[test]
fn bookmark_takes_directory_name() {
    let mut s = state();
    assert_eq!(s.add_bookmark(), Some(("u".to_string(), "/home/u".to_string())));
    assert_eq!(s.bookmarks.len(), 2);
    s.get_active_tab_mut().set_current_dir("/".to_string(), false);
    assert_eq!(s.add_bookmark(), None);
    assert_eq!(s.bookmarks.len(), 2);
}

#[test]
fn info_panel_reports_progress() {
    let mut s = state();
    assert_eq!(s.update_info_panel(), Some("/home/u/a".to_string()));
    assert_eq!(s.info_panel_content, Some("Calculating...".to_string()));
    s.set_info_panel("Size: 3 bytes".to_string());
    assert_eq!(s.info_panel_content, Some("Size: 3 bytes".to_string()));
    s.clear_info_panel();
    assert!(s.info_panel_content.is_none());
}

#[test]
fn toggles_flip_flags() {
    let mut s = state();
    s.toggle_hidden_files();
    assert!(s.show_hidden_files);
    s.toggle_terminal();
    assert!(s.show_terminal);
    s.toggle_tabs();
    assert!(s.show_tabs);
}

#[test]
fn created_paths_join_like_the_path_library() {
    let mut s = AppState::new("/".to_string(), Vec::new(), Vec::new());
    s.create_file_type = Some(CreateFileType::File);
    s.input_buffer = "x".to_string();
    s.create_item();
    s.create_file_type = Some(CreateFileType::File);
    s.input_buffer = "/abs/y".to_string();
    s.create_item();
    let tasks = s.task_manager.get_tasks();
    assert_eq!(tasks[0].kind, TaskKind::CreateFile { path: "/x".to_string() });
    assert_eq!(tasks[1].kind, TaskKind::CreateFile { path: "/abs/y".to_string() });
}
