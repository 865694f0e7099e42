use rtfm_core::icons::{get_icon_for_file, is_rasterizable};

#[test]
fn directories_get_the_folder_icon() {
    assert_eq!(get_icon_for_file("src.rs", true), "\u{f115}");
}

#[test]
fn icon_follows_the_last_extension() {
    assert_eq!(get_icon_for_file("main.rs", false), "\u{e7a8}");
    assert_eq!(get_icon_for_file("archive.tar.gz", false), "\u{f1c6}");
    assert_eq!(get_icon_for_file("photo.JPG", false), "\u{f15b}");
    assert_eq!(get_icon_for_file("photo.jpeg", false), "\u{f03e}");
    assert_eq!(get_icon_for_file(".gitignore", false), "\u{e702}");
    assert_eq!(get_icon_for_file("song.flac", false), "\u{1f3b5}");
    assert_eq!(get_icon_for_file("clip.mkv", false), "\u{1f39e}");
    assert_eq!(get_icon_for_file("notes.txt", false), "\u{f15c}");
    assert_eq!(get_icon_for_file("paper.pdf", false), "\u{f1c1}");
    assert_eq!(get_icon_for_file("Cargo.lock", false), "\u{f023}");
}

#[test]
fn name_without_dot_is_its_own_extension() {
    assert_eq!(get_icon_for_file("md", false), "\u{e73e}");
    assert_eq!(get_icon_for_file("Makefile", false), "\u{f15b}");
    assert_eq!(get_icon_for_file("trailing.", false), "\u{f15b}");
    assert_eq!(get_icon_for_file("", false), "\u{f15b}");
}

#[test]
fn images_and_documents_are_rasterized() {
    assert!(is_rasterizable("/p/photo.png"));
    assert!(is_rasterizable("scan.pdf"));
    assert!(is_rasterizable("a.b.jpeg"));
    assert!(!is_rasterizable("notes.txt"));
    assert!(is_rasterizable("png"));
    assert!(!is_rasterizable("png."));
    assert!(is_rasterizable("png.png"));
    assert!(!is_rasterizable("photo.PNG"));
}
