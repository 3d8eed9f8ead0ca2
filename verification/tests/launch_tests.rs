use mdlaunch::classify::is_markdown_file;
use mdlaunch::launch::{bootstrap, relaunch_notice};
use mdlaunch::scan::find_md_arg;
use mdlaunch::slot::PendingFileSlot;

#[test]
fn classifier_lowercase_md() {
    assert!(is_markdown_file("readme.md"));
}

#[test]
fn classifier_uppercase_md() {
    assert!(is_markdown_file("Notes.MD"));
}

#[test]
fn classifier_markdown_extension() {
    assert!(is_markdown_file("readme.markdown"));
}

#[test]
fn classifier_mixed_case_markdown() {
    assert!(is_markdown_file("Guide.MarkDown"));
}

#[test]
fn classifier_inner_extension_rejected() {
    assert!(!is_markdown_file("archive.md.zip"));
}

#[test]
fn classifier_bare_md_rejected() {
    assert!(!is_markdown_file("md"));
}

#[test]
fn classifier_empty_rejected() {
    assert!(!is_markdown_file(""));
}

#[test]
fn classifier_no_trimming() {
    assert!(!is_markdown_file("notes.md "));
}

#[test]
fn classifier_dot_md_alone() {
    assert!(is_markdown_file(".md"));
}

#[test]
fn scanner_first_match_wins() {
    let args = vec![
        "app".to_string(),
        "--flag".to_string(),
        "x.txt".to_string(),
        "notes.md".to_string(),
        "other.md".to_string(),
    ];
    assert_eq!(find_md_arg(&args), Some("notes.md".to_string()));
}

#[test]
fn scanner_program_name_only() {
    let args = vec!["app".to_string()];
    assert_eq!(find_md_arg(&args), None);
}

#[test]
fn scanner_single_markdown_argument() {
    let args = vec!["app".to_string(), "a.md".to_string()];
    assert_eq!(find_md_arg(&args), Some("a.md".to_string()));
}

#[test]
fn scanner_skips_index_zero() {
    let args = vec!["viewer.md".to_string()];
    assert_eq!(find_md_arg(&args), None);
}

#[test]
fn scanner_empty_argument_list() {
    let args: Vec<String> = Vec::new();
    assert_eq!(find_md_arg(&args), None);
}

#[test]
fn scanner_case_insensitive_match() {
    let args = vec!["app".to_string(), "A.MARKDOWN".to_string()];
    assert_eq!(find_md_arg(&args), Some("A.MARKDOWN".to_string()));
}

#[test]
fn slot_roundtrip() {
    let mut slot = PendingFileSlot::new();
    slot.deposit("p.md".to_string());
    assert_eq!(slot.take(), Some("p.md".to_string()));
    assert_eq!(slot.take(), None);
}

#[test]
fn slot_fresh_take_absent() {
    let mut slot = PendingFileSlot::new();
    assert_eq!(slot.take(), None);
    assert_eq!(slot.take(), None);
}

#[test]
fn slot_take_exactly_once() {
    let mut slot = PendingFileSlot::new();
    slot.deposit("a.markdown".to_string());
    let first = slot.take();
    let second = slot.take();
    assert_eq!(first, Some("a.markdown".to_string()));
    assert_eq!(second, None);
}

#[test]
fn slot_last_deposit_wins() {
    let mut slot = PendingFileSlot::new();
    slot.deposit("old.md".to_string());
    slot.deposit("new.md".to_string());
    assert_eq!(slot.take(), Some("new.md".to_string()));
}

#[test]
fn scenario_first_launch_with_file() {
    let mut slot = PendingFileSlot::new();
    let args = vec!["app".to_string(), "/home/u/report.md".to_string()];
    bootstrap(&mut slot, &args);
    assert_eq!(slot.take(), Some("/home/u/report.md".to_string()));
    assert_eq!(slot.take(), None);
}

#[test]
fn scenario_relaunch_with_file() {
    let mut slot = PendingFileSlot::new();
    let args = vec!["app".to_string(), "/tmp/x.markdown".to_string()];
    let notice = relaunch_notice(&args);
    assert_eq!(notice, Some("/tmp/x.markdown".to_string()));
    assert_eq!(slot.take(), None);
}

#[test]
fn scenario_no_markdown_argument() {
    let mut slot = PendingFileSlot::new();
    let args = vec![
        "app".to_string(),
        "--verbose".to_string(),
        "readme.txt".to_string(),
    ];
    bootstrap(&mut slot, &args);
    assert_eq!(relaunch_notice(&args), None);
    assert_eq!(slot.take(), None);
}

#[test]
fn bootstrap_deposits_first_markdown() {
    let mut slot = PendingFileSlot::new();
    let args = vec![
        "app".to_string(),
        "first.md".to_string(),
        "second.md".to_string(),
    ];
    bootstrap(&mut slot, &args);
    assert_eq!(slot.take(), Some("first.md".to_string()));
}

#[test]
fn bootstrap_leaves_slot_untouched_without_match() {
    let mut slot = PendingFileSlot::new();
    slot.deposit("kept.md".to_string());
    let args = vec!["app".to_string(), "plain.txt".to_string()];
    bootstrap(&mut slot, &args);
    assert_eq!(slot.take(), Some("kept.md".to_string()));
}
