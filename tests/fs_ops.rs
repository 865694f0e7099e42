use rtfm_core::fs_ops::{text_preview, PREVIEW_LINE_COUNT};

#[test]
fn text_preview_ends_each_line() {
    let lines = vec!["first".to_string(), String::new(), "third".to_string()];
    assert_eq!(text_preview(&lines), "first\n\nthird\n");
    assert_eq!(text_preview(&Vec::new()), "");
}

#[test]
fn text_preview_keeps_the_first_lines() {
    let lines: Vec<String> = (0..150).map(|i| format!("line {}", i)).collect();
    let preview = text_preview(&lines);
    assert_eq!(preview.lines().count(), PREVIEW_LINE_COUNT);
    assert!(preview.starts_with("line 0\nline 1\n"));
    assert!(preview.ends_with("line 99\n"));
}
