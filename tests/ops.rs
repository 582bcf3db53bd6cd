use forky::classify::ErrorKind;
use forky::ops::{
    add_remote_outcome, checkout_outcome, checkout_track_outcome, commit_outcome,
    create_branch_outcome, lines_of, merge_abort_outcome, merge_outcome, rebase_abort_outcome,
    rebase_continue_outcome, rebase_needs_conflict_list, rebase_outcome, remote_test_outcome,
    stash_apply_outcome, stash_drop_outcome, stash_ref, stash_save_args, stash_save_outcome,
    MergeStrategy,
};
use forky::steps::{
    delete_branch_step, delete_flag, delete_remote_branch_outcome, fast_forward_fetch_into_outcome,
    fast_forward_merge_outcome, flow_delete_step, flow_finish_outcome, flow_forced_delete_note,
    flow_merge_step,
    flow_tag_note, keyscan_step, rename_branch_step, rename_upstream_outcome,
    restore_after_switch_outcome, switch_after_stash_step, tag_args, tag_push_outcome, AfterSwitch,
    DeleteAttempt, Step,
};

#[test]
fn checkout_messages() {
    let r = checkout_outcome("dev", true, "", "Switched to branch 'dev'\n");
    assert!(r.success);
    assert_eq!(r.message, "Switched to branch 'dev'");
    let r = checkout_outcome("dev", true, "", "");
    assert_eq!(r.message, "Switched to branch 'dev'");
    let r = checkout_outcome("dev", true, "Your branch is up to date.\n", "");
    assert_eq!(r.message, "Your branch is up to date.");
    let r = checkout_outcome("dev", false, "", "error: pathspec 'dev' did not match");
    assert!(!r.success);
    let r = checkout_track_outcome("x", "origin/x", true, "", "");
    assert_eq!(r.message, "Branch 'x' set up to track remote branch 'origin/x'");
    let r = create_branch_outcome("b", false, true, "", "");
    assert_eq!(r.message, "Branch 'b' created");
    let r = create_branch_outcome("b", true, true, "", "");
    assert_eq!(r.message, "Switched to a new branch 'b'");
}

#[test]
fn commit_and_remote_messages() {
    let r = commit_outcome(true, "[main abc] msg\n 1 file changed\n create mode 100644 a\n", "");
    assert_eq!(r.message, "[main abc] msg");
    let r = commit_outcome(true, "  [main abc] msg\n", "");
    assert_eq!(r.message, "[main abc] msg");
    let r = commit_outcome(true, "", "");
    assert_eq!(r.message, "Commit created successfully");
    let r = add_remote_outcome("up", true, "", "");
    assert_eq!(r.message, "Remote 'up' added successfully");
    let r = remote_test_outcome(false, "fatal: Could not resolve host: x");
    assert_eq!(r.message, "Could not resolve host. Check the URL.");
    assert_eq!(r.error_type, Some(ErrorKind::HostNotFound));
    let r = remote_test_outcome(true, "");
    assert_eq!(r.message, "Connection successful");
}

#[test]
fn stash_messages() {
    let r = stash_save_outcome(false, "No local changes to save\n", "");
    assert_eq!(r.error_type, Some(ErrorKind::NoChanges));
    assert_eq!(r.message, "No local changes to save");
    let r = stash_apply_outcome(true, false, "CONFLICT (content)", "x \n");
    assert_eq!(r.error_type, Some(ErrorKind::Conflicts));
    assert_eq!(
        r.message,
        "Stash popped with conflicts. Resolve conflicts and commit. The stash was not dropped.\nx"
    );
    assert_eq!(stash_apply_outcome(false, true, "", "").message, "Stash applied successfully");
    assert_eq!(stash_ref(12), "stash@{12}");
    assert_eq!(stash_drop_outcome(0, true, "", "").message, "Stash stash@{0} dropped");
    assert_eq!(stash_save_args(Some("  "), true, false), vec!["stash", "push", "-u"]);
    assert_eq!(
        stash_save_args(Some("wip"), false, true),
        vec!["stash", "push", "--keep-index", "-m", "wip"]
    );
}

#[test]
fn merge_messages() {
    assert_eq!(MergeStrategy::parse("no-ff"), MergeStrategy::NoFastForward);
    assert_eq!(MergeStrategy::parse("squash").flag(), Some("--squash"));
    assert_eq!(MergeStrategy::parse("default").flag(), None);
    let r = merge_outcome(MergeStrategy::Default, false, "CONFLICT (content): Merge conflict in a\n", "");
    assert_eq!(r.error_type, Some(ErrorKind::MergeConflicts));
    assert_eq!(
        r.message,
        "Merge conflicts detected. Resolve conflicts and commit.\nCONFLICT (content): Merge conflict in a"
    );
    assert_eq!(r.conflicting_files, Some(vec![]));
    let r = merge_outcome(
        MergeStrategy::Default,
        false,
        "Auto-merging a.txt\nCONFLICT (content): Merge conflict in a.txt\n\ta.txt\nAborting\n",
        "",
    );
    assert_eq!(r.conflicting_files, Some(vec!["a.txt".to_string()]));
    let r = merge_outcome(MergeStrategy::Squash, true, "Updating\n", "");
    assert_eq!(r.message, "Squash merge completed. Changes are staged but not committed.\nUpdating");
    let r = merge_outcome(MergeStrategy::Default, true, "Fast-forward\n", "");
    assert_eq!(r.message, "Merge completed successfully.\nFast-forward");
    let r = merge_abort_outcome(false, "", "fatal: There is no merge to abort (MERGE_HEAD missing).");
    assert_eq!(r.error_type, Some(ErrorKind::NoMergeInProgress));
}

#[test]
fn rebase_messages() {
    assert!(rebase_needs_conflict_list(false, false, "could not apply abc", ""));
    assert!(!rebase_needs_conflict_list(false, true, "could not apply abc", ""));
    let r = rebase_outcome("main", false, false, "", "CONFLICT (content)", "a.txt\nb.txt\n");
    assert_eq!(r.error_type, Some(ErrorKind::RebaseConflicts));
    assert_eq!(r.conflicting_files, Some(vec!["a.txt".to_string(), "b.txt".to_string()]));
    let r = rebase_outcome("main", true, true, "", "", "");
    assert_eq!(r.message, "Interactive rebase onto 'main' completed successfully.");
    let r = rebase_outcome("main", false, true, "Current branch x is up to date.\n", "", "");
    assert_eq!(r.message, "Already up to date, nothing to rebase.");
    let r = rebase_abort_outcome(false, "", "fatal: No rebase in progress?");
    assert_eq!(r.error_type, Some(ErrorKind::NoRebaseInProgress));
    let r = rebase_continue_outcome(false, "", "error: conflict remains");
    assert_eq!(r.message, "There are still unresolved conflicts.");
    assert_eq!(lines_of("a\r\nb"), vec!["a", "b"]);
}

#[test]
fn branch_deletion_and_rename_steps() {
    assert_eq!(delete_flag(true), "-D");
    match delete_branch_step("f", true, Some("origin"), false, "", "error: The branch 'f' is not fully merged.") {
        Step::Done(r) => {
            assert_eq!(r.error_type, Some(ErrorKind::NotMerged));
            assert_eq!(r.message, "Branch 'f' is not fully merged. Use force delete to remove it anyway.");
        }
        Step::Next => panic!("expected an outcome"),
    }
    assert!(matches!(delete_branch_step("f", true, Some("origin"), true, "", ""), Step::Next));
    match delete_branch_step("f", true, None, true, "", "") {
        Step::Done(r) => assert_eq!(r.message, "Branch 'f' deleted"),
        Step::Next => panic!("expected an outcome"),
    }
    let r = delete_remote_branch_outcome("f", false, " denied \n");
    assert_eq!(r.message, "Local branch deleted but failed to delete remote branch: denied");
    assert_eq!(r.error_type, Some(ErrorKind::DeleteRemoteFailed));
    match rename_branch_step("a", "b", false, Some("origin"), true, "", "") {
        Step::Done(r) => assert_eq!(r.message, "Branch renamed from 'a' to 'b'"),
        Step::Next => panic!("expected an outcome"),
    }
    let r = rename_upstream_outcome("a", "b", false);
    assert_eq!(r.message, "Branch renamed from 'a' to 'b' (upstream may need manual setup)");
    assert!(r.success);
}

#[test]
fn tag_and_switch_steps() {
    assert_eq!(tag_args("v1", "HEAD", Some("rel")), vec!["tag", "-a", "v1", "HEAD", "-m", "rel"]);
    assert_eq!(tag_args("v1", "HEAD", Some(" ")), vec!["tag", "v1", "HEAD"]);
    assert_eq!(tag_args("v1", "HEAD", None), vec!["tag", "v1", "HEAD"]);
    let r = tag_push_outcome("v1", false, "rejected\n");
    assert_eq!(r.message, "Tag 'v1' created but push failed: rejected");
    assert_eq!(r.error_type, Some(ErrorKind::PushFailed));
    match switch_after_stash_step("dev", false, true, "") {
        AfterSwitch::Report(r) => assert_eq!(r.message, "Switched to 'dev' (changes saved in stash)"),
        _ => panic!("expected a report"),
    }
    match switch_after_stash_step("dev", true, false, "bad\n") {
        AfterSwitch::PopBackThenReport(r) => {
            assert_eq!(r.message, "Checkout failed (stash restored): bad");
            assert_eq!(r.error_type, Some(ErrorKind::CheckoutFailed));
        }
        _ => panic!("expected the stash popped back"),
    }
    assert!(matches!(switch_after_stash_step("dev", true, true, ""), AfterSwitch::Restore));
    let r = restore_after_switch_outcome("dev", false, "conflict\n");
    assert!(r.success);
    assert_eq!(r.error_type, None);
    assert_eq!(
        r.message,
        "Switched to 'dev' but failed to restore changes. Your changes are in stash. Error: conflict"
    );
}

#[test]
fn fast_forward_and_host_key_steps() {
    let r = fast_forward_merge_outcome("main", "origin", true, "", "");
    assert_eq!(r.message, "Fast-forwarded 'main' from 'origin/main'");
    let r = fast_forward_merge_outcome("main", "origin", false, "", "fatal: Not possible to fast-forward, aborting.");
    assert_eq!(r.error_type, Some(ErrorKind::FastForwardFailed));
    let r = fast_forward_fetch_into_outcome("dev", "origin", false, "", " ! [rejected] dev -> dev (non-fast-forward)");
    assert_eq!(r.message, "Cannot fast-forward 'dev': local branch has commits not in remote");
    match keyscan_step(true, " \n", "") {
        Step::Done(r) => assert_eq!(r.error_type, Some(ErrorKind::NoHostKeys)),
        Step::Next => panic!("expected an outcome"),
    }
    assert!(matches!(keyscan_step(true, "host ssh-ed25519 AAAA\n", ""), Step::Next));
}

#[test]
fn flow_finish_notes() {
    match flow_merge_step("main", true, "") {
        Ok(note) => assert_eq!(note, "Merged into 'main'"),
        Err(_) => panic!("expected a note"),
    }
    match flow_merge_step("main", false, "CONFLICT (content)") {
        Err(r) => assert_eq!(r.error_type, Some(ErrorKind::MergeConflict)),
        Ok(_) => panic!("expected an outcome"),
    }
    assert_eq!(flow_tag_note("1.0", false, "fatal: tag '1.0' already exists"), None);
    assert_eq!(flow_tag_note("1.0", true, "").as_deref(), Some("Created tag '1.0'"));
    assert!(matches!(flow_delete_step("release/1.0", false), DeleteAttempt::RetryForced));
    match flow_delete_step("release/1.0", true) {
        DeleteAttempt::Deleted(n) => assert_eq!(n, "Deleted branch 'release/1.0'"),
        DeleteAttempt::RetryForced => panic!("expected a note"),
    }
    assert_eq!(flow_forced_delete_note("release/1.0", true).as_deref(), Some("Deleted branch 'release/1.0' (force)"));
    assert_eq!(flow_forced_delete_note("release/1.0", false), None);
    let notes = vec!["Merged into 'main'".to_string(), "Merged into 'develop'".to_string()];
    assert_eq!(flow_finish_outcome(&notes).message, "Merged into 'main'. Merged into 'develop'");
    assert_eq!(flow_finish_outcome(&Vec::new()).message, "");
}
