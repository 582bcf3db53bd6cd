use forky::patch::{apply_outcome, generate_patch, ApplyTarget, HunkData, HunkLineData};

fn line(content: &str, line_type: &str) -> HunkLineData {
    HunkLineData { content: content.to_string(), line_type: line_type.to_string() }
}

#[test]
fn patch_for_a_mixed_hunk() {
    let hunk = HunkData {
        old_start: 1,
        old_lines: 2,
        new_start: 1,
        new_lines: 3,
        lines: vec![line("x\n", "context"), line("y\r\n", "delete"), line("z", "add"), line("w\n", "add")],
    };
    assert_eq!(
        generate_patch("a.txt", &hunk),
        "diff --git a/a.txt b/a.txt\n--- a/a.txt\n+++ b/a.txt\n@@ -1,2 +1,3 @@\n x\n-y\n+z\n+w\n"
    );
}

#[test]
fn patch_for_a_pure_insertion_with_large_numbers() {
    let hunk = HunkData {
        old_start: 0,
        old_lines: 0,
        new_start: 4294967295,
        new_lines: 10,
        lines: vec![line("new\n\n\r", "add"), line("", "other")],
    };
    assert_eq!(
        generate_patch("d/f.rs", &hunk),
        "diff --git a/d/f.rs b/d/f.rs\n--- a/d/f.rs\n+++ b/d/f.rs\n@@ -0,0 +4294967295,10 @@\n+new\n \n"
    );
}

#[test]
fn apply_targets() {
    assert_eq!(ApplyTarget::Index.apply_args(), vec!["apply", "--cached", "--unidiff-zero"]);
    assert_eq!(
        ApplyTarget::IndexReversed.apply_args(),
        vec!["apply", "--cached", "--reverse", "--unidiff-zero"]
    );
    assert_eq!(
        ApplyTarget::WorkingTreeReversed.apply_args(),
        vec!["apply", "--reverse", "--unidiff-zero"]
    );
}

#[test]
fn apply_outcomes() {
    assert_eq!(apply_outcome(ApplyTarget::Index, true, "ignored"), Ok(()));
    assert_eq!(
        apply_outcome(ApplyTarget::Index, false, "error: patch failed\n"),
        Err("Failed to stage hunk: error: patch failed".to_string())
    );
    assert_eq!(
        apply_outcome(ApplyTarget::IndexReversed, false, " x "),
        Err("Failed to unstage hunk: x".to_string())
    );
    assert_eq!(
        apply_outcome(ApplyTarget::WorkingTreeReversed, false, ""),
        Err("Failed to discard hunk: ".to_string())
    );
}
