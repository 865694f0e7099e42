use rtfm_core::three_column::{App, AppMode, Config, LeftColumnSection, StaticColors};

fn app() -> App {
    let mut config = Config::default();
    config.pinned_dirs = vec!["/srv".to_string(), "/opt".to_string()];
    App::new(config, Some("/home/u".to_string()))
}

#[test]
fn default_config_colors() {
    let config = Config::default();
    assert_eq!(config.colors.bg, "#000000");
    assert_eq!(config.colors.fg, "#ffffff");
    assert_eq!(config.colors.highlight_bg, "#0000ff");
    assert_eq!(config.colors.highlight_fg, "#ffff00");
    assert!(config.pinned_dirs.is_empty());
}

#[test]
fn new_lists_home_directories() {
    let app = app();
    assert_eq!(
        app.home_dirs,
        vec![
            "/home/u".to_string(),
            "/home/u/Downloads".to_string(),
            "/home/u/Documents".to_string(),
            "/home/u/Pictures".to_string(),
            "/home/u/Videos".to_string(),
            "/home/u/Music".to_string(),
        ]
    );
    assert_eq!(app.current_dir, "/home/u");
    assert_eq!(app.pinned_dirs.len(), 2);
    assert_eq!(app.mode, AppMode::Normal);
    let bare = App::new(Config::default(), None);
    assert!(bare.home_dirs.is_empty());
    assert_eq!(bare.current_dir, ".");
}

#[test]
fn drives_come_from_mount_output() {
    let mut app = app();
    app.load_drives(
        "/dev/sda1 on / type ext4 (rw)\nproc on /proc type proc (rw)\r\nsysfs on sys type sysfs\n\nshort line\n",
    );
    assert_eq!(app.drives, vec!["/".to_string(), "/proc".to_string()]);
    app.load_drives("a on /mnt/x type t\r\nb on /mnt/y type t\r");
    assert_eq!(app.drives, vec!["/mnt/x".to_string(), "/mnt/y".to_string()]);
    app.load_drives("");
    assert!(app.drives.is_empty());
}

#[test]
fn left_column_walks_through_sections() {
    let mut app = app();
    app.drives = vec!["/".to_string()];
    for _ in 0..5 {
        app.left_col_down();
    }
    assert_eq!(app.left_col_selected_section, LeftColumnSection::Home);
    assert_eq!(app.left_col_selected_item, 5);
    app.left_col_down();
    assert_eq!(app.left_col_selected_section, LeftColumnSection::Pinned);
    assert_eq!(app.left_col_selected_item, 0);
    app.left_col_down();
    app.left_col_down();
    assert_eq!(app.left_col_selected_section, LeftColumnSection::Drives);
    assert_eq!(app.left_col_selected_item, 0);
    app.left_col_down();
    assert_eq!(app.left_col_selected_section, LeftColumnSection::Drives);
    app.left_col_up();
    assert_eq!(app.left_col_selected_section, LeftColumnSection::Pinned);
    assert_eq!(app.left_col_selected_item, 1);
    app.left_col_up();
    app.left_col_up();
    assert_eq!(app.left_col_selected_section, LeftColumnSection::Home);
    assert_eq!(app.left_col_selected_item, 5);
}

#[test]
fn quit_and_load_dir() {
    let mut app = app();
    app.middle_col_selected = 3;
    app.load_dir(vec!["/home/u/a".to_string()]);
    assert_eq!(app.middle_col_selected, 0);
    assert_eq!(app.items.len(), 1);
    app.quit();
    assert!(!app.running);
}

#[test]
fn static_colors_become_owned() {
    let colors = StaticColors { bg: "#282a36", fg: "#f8f8f2", highlight_bg: "#44475a", highlight_fg: "#bd93f9" }
        .to_colors();
    assert_eq!(colors.bg, "#282a36");
    assert_eq!(colors.highlight_fg, "#bd93f9");
}
