use forky::image::{get_mime_type, image_content};
use forky::rebase::{rebase_todo, InteractiveRebaseEntry, RebaseAction};
use forky::stash::extract_branch_from_stash_message;
use forky::watch::{is_git_head_file, should_ignore_path};

#[test]
fn stash_branches() {
    assert_eq!(extract_branch_from_stash_message("WIP on main: abc123 msg"), "main");
    assert_eq!(extract_branch_from_stash_message("On feature/x: custom"), "feature/x");
    assert_eq!(extract_branch_from_stash_message("index on dev: abc"), "dev");
    assert_eq!(extract_branch_from_stash_message("WIP on main"), "");
    assert_eq!(extract_branch_from_stash_message("random"), "");
}

fn entry(action: RebaseAction, short_id: &str, message: &str) -> InteractiveRebaseEntry {
    InteractiveRebaseEntry {
        action,
        commit_id: format!("{}0000", short_id),
        short_id: short_id.to_string(),
        message: message.to_string(),
        author: "a".to_string(),
        date: "2024-01-01".to_string(),
    }
}

#[test]
fn rebase_actions_and_todo() {
    assert_eq!(RebaseAction::Fixup.to_git_command(), "fixup");
    assert_eq!(RebaseAction::Drop.to_git_command(), "drop");
    let es = vec![entry(RebaseAction::Pick, "abc", "first"), entry(RebaseAction::Squash, "def", "second one")];
    assert_eq!(rebase_todo(&es), "pick abc first\nsquash def second one");
    assert_eq!(rebase_todo(&Vec::new()), "");
}

#[test]
fn mime_types() {
    assert_eq!(get_mime_type("a/B.JPG"), "image/jpeg");
    assert_eq!(get_mime_type("x.svg"), "image/svg+xml");
    assert_eq!(get_mime_type("x.ico"), "image/x-icon");
    assert_eq!(get_mime_type("x.txt"), "application/octet-stream");
}

#[test]
fn image_content_is_encoded() {
    let c = image_content("a.png", &[1, 2, 3]);
    assert_eq!(c.base64, "AQID");
    assert_eq!(image_content("a", b"ab").base64, "YWI=");
    assert_eq!(image_content("a", b"a").base64, "YQ==");
    assert_eq!(image_content("a", b"").base64, "");
    assert_eq!(image_content("a", &[255, 254, 253, 0]).base64, "//79AA==");
    assert_eq!(c.mime_type, "image/png");
    assert_eq!(c.file_size, 3);
}

#[test]
fn watcher_paths() {
    assert!(should_ignore_path("/r/.git/objects/ab/cd"));
    assert!(should_ignore_path("/r/node_modules/x"));
    assert!(!should_ignore_path("/r/src/main.rs"));
    assert!(is_git_head_file("/r/.git/HEAD"));
    assert!(is_git_head_file(".git/HEAD"));
    assert!(!is_git_head_file("/r/.git/HEADX"));
    assert!(!is_git_head_file("/r/x.git/HEAD"));
}
