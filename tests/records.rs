use forky::flow::{branch_flow_info, gitflow_config_from, FlowKind, GitFlowBranchType};
use forky::number::{count_or_zero, timestamp_or_zero};
use forky::options::{fetch_args, pull_args, push_args, FetchOptions, PullOptions, PushOptions};
use forky::rebase::{parse_rebase_log, rebase_preview, RebaseAction};
use forky::repo::{
    commit_date, commit_info, file_status, merge_preview, merge_tree_conflicts, separated_status,
    split_commit_message, EntryStatus,
};
use forky::stash::parse_stash_list;
use forky::system::{default_theme, git_status_from, theme_from_probe, ThemeProbe};
use forky::text::{split_all_pieces, split_pieces};
use forky::watch::changes_of;

#[test]
fn flow_kinds_of_branches() {
    let c = gitflow_config_from(Some("main".to_string()), None, None, Some("rel/".to_string()), None, None);
    assert!(c.initialized);
    assert_eq!(c.develop_branch, "develop");
    assert_eq!(c.release_prefix, "rel/");
    let info = branch_flow_info("feature/login", &c);
    assert_eq!(info.branch_type, GitFlowBranchType::Feature);
    assert_eq!(info.name, "login");
    assert_eq!(branch_flow_info("main", &c).branch_type, GitFlowBranchType::Master);
    assert_eq!(branch_flow_info("rel/2.0", &c).name, "2.0");
    assert_eq!(branch_flow_info("topic", &c).branch_type, GitFlowBranchType::Other);
    let d = gitflow_config_from(None, Some("dev".to_string()), None, None, None, None);
    assert!(!d.initialized);
    assert_eq!(d.develop_branch, "develop");
    assert_eq!(d.master_branch, "master");
}

#[test]
fn flow_plans() {
    let c = gitflow_config_from(Some("main".to_string()), Some("dev".to_string()), None, None, None, None);
    assert_eq!(FlowKind::parse("hotfix"), Some(FlowKind::Hotfix));
    assert_eq!(FlowKind::parse("bugfix"), None);
    assert_eq!(FlowKind::Hotfix.branch_name(&c, "x"), "hotfix/x");
    assert_eq!(FlowKind::Hotfix.start_base(&c, None), "main");
    assert_eq!(FlowKind::Feature.start_base(&c, Some("")), "dev");
    assert_eq!(FlowKind::Feature.start_base(&c, Some("topic")), "topic");
    assert_eq!(FlowKind::Release.finish_targets(&c), vec!["main", "dev"]);
    assert_eq!(FlowKind::Feature.finish_targets(&c), vec!["dev"]);
    assert!(!FlowKind::Feature.creates_tag());
    assert!(FlowKind::Release.creates_tag());
}

#[test]
fn option_arguments() {
    assert_eq!(fetch_args(&FetchOptions { remote: Some("up".to_string()), all: false }), vec!["fetch", "up"]);
    assert_eq!(fetch_args(&FetchOptions { remote: Some("up".to_string()), all: true }), vec!["fetch", "--all"]);
    assert_eq!(fetch_args(&FetchOptions { remote: None, all: false }), vec!["fetch", "origin"]);
    let p = PullOptions { remote: "origin".to_string(), branch: "main".to_string(), rebase: false, autostash: true };
    assert_eq!(pull_args(&p), vec!["pull", "--no-rebase", "--autostash", "origin", "main"]);
    let p = PushOptions {
        branch: "a".to_string(),
        remote: "origin".to_string(),
        remote_branch: "b".to_string(),
        push_tags: true,
        force_with_lease: true,
    };
    assert_eq!(push_args(&p), vec!["push", "--force-with-lease", "--tags", "origin", "a:b"]);
}

fn status() -> EntryStatus {
    EntryStatus {
        index_new: false,
        index_modified: false,
        index_deleted: false,
        index_renamed: false,
        wt_new: false,
        wt_modified: false,
        wt_deleted: false,
        wt_renamed: false,
    }
}

#[test]
fn statuses_of_paths() {
    let s = EntryStatus { index_modified: true, wt_modified: true, ..status() };
    let f = file_status("a", s);
    assert_eq!((f.status.as_str(), f.staged), ("modified", true));
    let (staged, unstaged) = separated_status("a", s);
    assert_eq!(staged.unwrap().status, "modified");
    assert_eq!(unstaged.unwrap().status, "modified");
    let s = EntryStatus { wt_new: true, ..status() };
    assert_eq!(file_status("n", s).status, "untracked");
    let (staged, unstaged) = separated_status("n", s);
    assert!(staged.is_none());
    assert!(!unstaged.unwrap().staged);
    assert_eq!(file_status("z", status()).status, "unknown");
}

#[test]
fn commit_messages_and_records() {
    let m = split_commit_message("Subject line \n\n Body text\nmore\n");
    assert_eq!(m.subject, "Subject line");
    assert_eq!(m.body, "Body text\nmore");
    let m = split_commit_message("only");
    assert_eq!((m.subject.as_str(), m.body.as_str()), ("only", ""));
    assert_eq!(commit_date(0), "1970-01-01 00:00:00");
    assert_eq!(commit_date(-86400), "1969-12-31 00:00:00");
    assert_eq!(commit_date(i64::MAX), "");
    let c = commit_info("0123456789abcdef", " msg \n", None, Some("a@b"), 86400, vec!["p".to_string()]);
    assert_eq!(c.short_id, "0123456");
    assert_eq!(c.message, "msg");
    assert_eq!(c.author, "Unknown");
    assert_eq!(c.author_email, "a@b");
    assert_eq!(c.date, "1970-01-02 00:00:00");
    assert_eq!(c.parent_ids, vec!["p".to_string()]);
}

#[test]
fn merge_tree_output() {
    let out = "changed in both\n  base   100644 aaa src/a b.rs\n  our    100644 bbb src/a b.rs\n  their  100644 ccc src/a b.rs\n@@ -1 +1 @@\n\nadded in both\n  our    100644 ddd new.txt\n";
    let (conflicts, files) = merge_tree_conflicts(out);
    assert!(conflicts);
    assert_eq!(files, vec!["src/a b.rs".to_string(), "new.txt".to_string()]);
    let (conflicts, files) = merge_tree_conflicts("merged\n  result 100644 x y\n");
    assert!(!conflicts);
    assert!(files.is_empty());
    let p = merge_preview("feature", "main\n", "abc\n", " 3\n", "abc\n", "");
    assert_eq!(p.target_branch, "main");
    assert_eq!(p.commits_ahead, 3);
    assert!(p.can_fast_forward);
    assert!(!p.has_conflicts);
    let r = rebase_preview("main", "topic\n", true, "x");
    assert_eq!((r.source_branch.as_str(), r.commits_to_rebase), ("topic", 0));
}

#[test]
fn numbers() {
    assert_eq!(count_or_zero(" 42\n"), 42);
    assert_eq!(count_or_zero("-1"), 0);
    assert_eq!(count_or_zero("+7"), 7);
    assert_eq!(timestamp_or_zero("-5"), -5);
    assert_eq!(timestamp_or_zero("99999999999999999999"), 0);
    assert_eq!(timestamp_or_zero(""), 0);
}

#[test]
fn stash_listing() {
    let out = "stash@{0}|WIP on main: abc msg|1700000000\nbroken line\nstash@{2}|On dev: note|oops\n";
    let s = parse_stash_list(out);
    assert_eq!(s.len(), 2);
    assert_eq!((s[0].index, s[0].id.as_str(), s[0].branch.as_str(), s[0].timestamp), (0, "stash@{0}", "main", 1700000000));
    assert_eq!((s[1].index, s[1].branch.as_str(), s[1].timestamp), (2, "dev", 0));
    assert_eq!(s[1].message, "On dev: note");
}

#[test]
fn rebase_log_listing() {
    let out = "h1|a1|first|Ann|2024-01-01\nbad|line\nh2|a2|second | with bar|Bob|2024-01-02\n";
    let es = parse_rebase_log(out);
    assert_eq!(es.len(), 2);
    assert_eq!(es[0].action, RebaseAction::Pick);
    assert_eq!(es[0].short_id, "a1");
    assert_eq!(es[1].message, "second ");
    assert_eq!(es[1].author, " with bar");
    assert_eq!(es[1].date, "Bob|2024-01-02");
}

#[test]
fn splitting() {
    assert_eq!(split_all_pieces("a||b|", '|'), vec!["a", "", "b", ""]);
    assert_eq!(split_pieces("a|b|c", '|', 2), vec!["a", "b|c"]);
    assert_eq!(split_pieces("abc", '|', 3), vec!["abc"]);
    assert!(split_pieces("abc", '|', 0).is_empty());
}

#[test]
fn system_facts() {
    let g = git_status_from(true, "git version 2.43.0\n");
    assert!(g.installed);
    assert_eq!(g.version.as_deref(), Some("2.43.0"));
    assert_eq!(git_status_from(true, "2.1").version.as_deref(), Some("2.1"));
    assert!(git_status_from(false, "x").version.is_none());
    assert_eq!(theme_from_probe(ThemeProbe::GtkTheme, "'Adwaita-DARK'").theme, "dark");
    assert_eq!(theme_from_probe(ThemeProbe::GnomeColorScheme, "'Dark'").theme, "light");
    let t = theme_from_probe(ThemeProbe::XdgPortal, "   variant       uint32 1");
    assert_eq!((t.theme.as_str(), t.source.as_str()), ("dark", "xdg-portal"));
    assert_eq!(default_theme().source, "default");
}

#[test]
fn watched_changes() {
    let paths = vec!["/r/.git/HEAD".to_string(), "/r/.git/objects/x".to_string()];
    assert_eq!(changes_of(&paths), (true, false));
    let paths = vec!["/r/src/main.rs".to_string()];
    assert_eq!(changes_of(&paths), (false, true));
    assert_eq!(changes_of(&Vec::new()), (false, false));
}
