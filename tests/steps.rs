use forky::classify::ErrorKind;
use forky::flow::FlowKind;
use forky::steps::{
    auto_stash_message, fast_forward_fetch_step, flow_checkout_step, flow_merge_message,
    flow_start_outcome, flow_tag_message, keyscan_step, known_host_added, rename_delete_old_step,
    rename_push_step, stash_before_switch_step, tag_step, unknown_flow_type, Step,
};

fn outcome(s: Step) -> forky::classify::GitOperationResult {
    match s {
        Step::Done(r) => r,
        Step::Next => panic!("expected an outcome"),
    }
}

#[test]
fn failed_host_key_scan() {
    let r = outcome(keyscan_step(false, "", "getaddrinfo: Name or service not known\n"));
    assert_eq!(r.error_type, Some(ErrorKind::SshKeyscanFailed));
    assert_eq!(r.message, "Failed to scan host keys: getaddrinfo: Name or service not known\n");
    assert_eq!(known_host_added("h").message, "Host 'h' added to known hosts");
}

#[test]
fn failed_auto_stash() {
    assert_eq!(auto_stash_message("dev"), "Auto-stash before switching to dev");
    let r = outcome(stash_before_switch_step(false, "error: could not stash\n"));
    assert_eq!(r.error_type, Some(ErrorKind::StashFailed));
    assert_eq!(r.message, "Failed to stash changes: error: could not stash");
    assert!(matches!(stash_before_switch_step(true, ""), Step::Next));
}

#[test]
fn rename_remote_failures() {
    let r = outcome(rename_push_step(false, "denied"));
    assert_eq!(r.error_type, Some(ErrorKind::PushFailed));
    assert_eq!(r.message, "Local branch renamed but failed to push to remote: denied");
    let r = outcome(rename_delete_old_step(false, "gone"));
    assert_eq!(r.error_type, Some(ErrorKind::DeleteRemoteFailed));
    assert!(matches!(rename_push_step(true, ""), Step::Next));
}

#[test]
fn tag_and_fetch_steps() {
    assert!(matches!(tag_step("v1", true, true, "", ""), Step::Next));
    assert_eq!(outcome(tag_step("v1", false, true, "", "")).message, "Tag 'v1' created");
    let r = outcome(tag_step("v1", true, false, "", "fatal: tag 'v1' already exists"));
    assert_eq!(r.error_type, Some(ErrorKind::GitError));
    let r = outcome(fast_forward_fetch_step(false, "fatal: couldn't find remote ref x"));
    assert_eq!(r.error_type, Some(ErrorKind::GitError));
}

#[test]
fn flow_start_and_messages() {
    let r = unknown_flow_type("bugfix");
    assert!(!r.success);
    assert_eq!(r.message, "Unknown flow type: bugfix");
    let r = flow_start_outcome(FlowKind::Feature, "login", "develop", true, "", "");
    assert_eq!(r.message, "Started feature 'login' from 'develop'");
    assert_eq!(flow_merge_message(FlowKind::Release, "1.0", "main"), "Merge release '1.0' into main");
    assert_eq!(flow_tag_message(FlowKind::Hotfix, "1.0.1"), "Hotfix 1.0.1");
    assert_eq!(flow_tag_message(FlowKind::Release, "1.0"), "Release 1.0");
    let r = flow_checkout_step("main", false, "error: x").expect("an outcome");
    assert_eq!(r.message, "Failed to checkout 'main': error: x");
    assert!(flow_checkout_step("main", true, "").is_none());
}

#[test]
fn flow_initialised_message() {
    let r = forky::steps::flow_initialized("main", "dev");
    assert!(r.success);
    assert_eq!(r.message, "Git Flow initialized with production branch 'main' and development branch 'dev'");
}
