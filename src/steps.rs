//! Decisions of the operations that take several runs in turn: after each
//! run, either the outcome is known or the next run is due.
use crate::classify::{
    create_error_result, create_success_result, failure_view, success_view, tagged_failure,
    tagged_failure_result, texts, ErrorKind, GitOperationResult, OperationView,
};
use crate::flow::FlowKind;
use crate::ops::{join3, join5};
use crate::text::{chars_of, contains_str, has_text, trim_text, trimmed};
use vstd::prelude::*;

verus! {

/// What follows one run of a multi-run operation.
pub enum Step {
    /// The operation ends with this outcome.
    Done(GitOperationResult),
    /// The next run is due.
    Next,
}

pub open spec fn step_view(s: Step) -> Option<OperationView> {
    match s {
        Step::Done(r) => Some(r@),
        Step::Next => None,
    }
}

fn fail_with(prefix: &str, stderr: &str, kind: ErrorKind) -> (r: GitOperationResult)
    ensures
        r@ == tagged_failure(prefix@ + trimmed(stderr@), kind),
{
    let mut m = String::from_str(prefix);
    let t = trim_text(stderr);
    m.append(t.as_str());
    tagged_failure_result(m, kind)
}

// ---------------------------------------------------------------------------
// Deleting a branch
// ---------------------------------------------------------------------------

/// The flag of a branch deletion: forced or safe.
pub fn delete_flag(force: bool) -> (r: &'static str)
    ensures
        r@ == (if force {
            "-D"@
        } else {
            "-d"@
        }),
{
    if force {
        "-D"
    } else {
        "-d"
    }
}

/// After deleting the local branch: stop on failure, go on to the remote
/// when asked to and a remote is named, else report the deletion.
pub fn delete_branch_step(
    branch: &str,
    delete_remote: bool,
    remote: Option<&str>,
    succeeded: bool,
    stdout: &str,
    stderr: &str,
) -> (r: Step)
    ensures
        step_view(r) == (if !succeeded {
            Some(
                if has_text(stderr@, "not fully merged"@) {
                    tagged_failure(
                        "Branch '"@ + branch@
                            + "' is not fully merged. Use force delete to remove it anyway."@,
                        ErrorKind::NotMerged,
                    )
                } else {
                    failure_view(stderr@, stdout@)
                },
            )
        } else if delete_remote && remote is Some {
            None
        } else {
            Some(success_view("Branch '"@ + branch@ + "' deleted"@))
        }),
{
    if !succeeded {
        if contains_str(&chars_of(stderr), "not fully merged") {
            return Step::Done(
                tagged_failure_result(
                    join3(
                        "Branch '",
                        branch,
                        "' is not fully merged. Use force delete to remove it anyway.",
                    ),
                    ErrorKind::NotMerged,
                ),
            );
        }
        return Step::Done(create_error_result(stderr, stdout));
    }
    if delete_remote && remote.is_some() {
        Step::Next
    } else {
        Step::Done(create_success_result(join3("Branch '", branch, "' deleted")))
    }
}

/// After deleting the branch on the remote.
pub fn delete_remote_branch_outcome(branch: &str, succeeded: bool, stderr: &str) -> (r:
    GitOperationResult)
    ensures
        r@ == (if succeeded {
            success_view("Branch '"@ + branch@ + "' deleted (local and remote)"@)
        } else {
            tagged_failure(
                "Local branch deleted but failed to delete remote branch: "@ + trimmed(stderr@),
                ErrorKind::DeleteRemoteFailed,
            )
        }),
{
    if succeeded {
        create_success_result(join3("Branch '", branch, "' deleted (local and remote)"))
    } else {
        fail_with(
            "Local branch deleted but failed to delete remote branch: ",
            stderr,
            ErrorKind::DeleteRemoteFailed,
        )
    }
}

// ---------------------------------------------------------------------------
// Renaming a branch
// ---------------------------------------------------------------------------

pub open spec fn renamed_text(old: Seq<char>, new: Seq<char>) -> Seq<char> {
    "Branch renamed from '"@ + old + "' to '"@ + new + "'"@
}

fn renamed_message(old: &str, new: &str, suffix: &str) -> (r: String)
    ensures
        r@ == renamed_text(old@, new@) + suffix@,
{
    let mut m = join5("Branch renamed from '", old, "' to '", new, "'");
    m.append(suffix);
    m
}

/// After renaming the local branch: stop on failure, go on to the remote
/// when asked to and a remote is named, else report the rename.
pub fn rename_branch_step(
    old: &str,
    new: &str,
    rename_remote: bool,
    remote: Option<&str>,
    succeeded: bool,
    stdout: &str,
    stderr: &str,
) -> (r: Step)
    ensures
        step_view(r) == (if !succeeded {
            Some(failure_view(stderr@, stdout@))
        } else if rename_remote && remote is Some {
            None
        } else {
            Some(success_view(renamed_text(old@, new@)))
        }),
{
    if !succeeded {
        return Step::Done(create_error_result(stderr, stdout));
    }
    if rename_remote && remote.is_some() {
        Step::Next
    } else {
        let m = renamed_message(old, new, "");
        proof {
            reveal_strlit("");
        }
        assert(m@ =~= renamed_text(old@, new@));
        Step::Done(create_success_result(m))
    }
}

/// After pushing the new name to the remote.
pub fn rename_push_step(succeeded: bool, stderr: &str) -> (r: Step)
    ensures
        step_view(r) == (if succeeded {
            None
        } else {
            Some(
                tagged_failure(
                    "Local branch renamed but failed to push to remote: "@ + trimmed(stderr@),
                    ErrorKind::PushFailed,
                ),
            )
        }),
{
    if succeeded {
        Step::Next
    } else {
        Step::Done(
            fail_with("Local branch renamed but failed to push to remote: ", stderr, ErrorKind::PushFailed),
        )
    }
}

/// After deleting the old name on the remote.
pub fn rename_delete_old_step(succeeded: bool, stderr: &str) -> (r: Step)
    ensures
        step_view(r) == (if succeeded {
            None
        } else {
            Some(
                tagged_failure(
                    "Branch renamed and pushed, but failed to delete old remote branch: "@
                        + trimmed(stderr@),
                    ErrorKind::DeleteRemoteFailed,
                ),
            )
        }),
{
    if succeeded {
        Step::Next
    } else {
        Step::Done(
            fail_with(
                "Branch renamed and pushed, but failed to delete old remote branch: ",
                stderr,
                ErrorKind::DeleteRemoteFailed,
            ),
        )
    }
}

/// After setting the upstream of the renamed branch: the rename stands
/// either way.
pub fn rename_upstream_outcome(old: &str, new: &str, succeeded: bool) -> (r: GitOperationResult)
    ensures
        r@ == success_view(
            renamed_text(old@, new@) + if succeeded {
                " (local and remote)"@
            } else {
                " (upstream may need manual setup)"@
            },
        ),
{
    create_success_result(
        renamed_message(
            old,
            new,
            if succeeded {
                " (local and remote)"
            } else {
                " (upstream may need manual setup)"
            },
        ),
    )
}

// ---------------------------------------------------------------------------
// Creating a tag
// ---------------------------------------------------------------------------

/// A tag is annotated when a message with more than white space is given.
pub open spec fn annotated(message: Option<&str>) -> bool {
    match message {
        Some(m) => trimmed(m@).len() > 0,
        None => false,
    }
}

/// The tag subcommand's arguments: annotated with its message, or
/// lightweight.
pub fn tag_args(tag: &str, start_point: &str, message: Option<&str>) -> (r: Vec<String>)
    ensures
        texts(r@) == (if annotated(message) {
            seq!["tag"@, "-a"@, tag@, start_point@, "-m"@, message->0@]
        } else {
            seq!["tag"@, tag@, start_point@]
        }),
{
    let mut v: Vec<String> = Vec::new();
    v.push(String::from_str("tag"));
    let mut note: Option<&str> = None;
    if let Some(m) = message {
        if trim_text(m).unicode_len() > 0 {
            note = Some(m);
        }
    }
    match note {
        Some(m) => {
            v.push(String::from_str("-a"));
            v.push(String::from_str(tag));
            v.push(String::from_str(start_point));
            v.push(String::from_str("-m"));
            v.push(String::from_str(m));
        },
        None => {
            v.push(String::from_str(tag));
            v.push(String::from_str(start_point));
        },
    }
    assert(texts(v@) =~= (if annotated(message) {
        seq!["tag"@, "-a"@, tag@, start_point@, "-m"@, message->0@]
    } else {
        seq!["tag"@, tag@, start_point@]
    }));
    v
}

/// After creating the tag: stop on failure, go on to pushing when asked
/// to, else report the tag.
pub fn tag_step(tag: &str, push: bool, succeeded: bool, stdout: &str, stderr: &str) -> (r: Step)
    ensures
        step_view(r) == (if !succeeded {
            Some(failure_view(stderr@, stdout@))
        } else if push {
            None
        } else {
            Some(success_view("Tag '"@ + tag@ + "' created"@))
        }),
{
    if !succeeded {
        Step::Done(create_error_result(stderr, stdout))
    } else if push {
        Step::Next
    } else {
        Step::Done(create_success_result(join3("Tag '", tag, "' created")))
    }
}

/// After pushing the tags.
pub fn tag_push_outcome(tag: &str, succeeded: bool, stderr: &str) -> (r: GitOperationResult)
    ensures
        r@ == (if succeeded {
            success_view("Tag '"@ + tag@ + "' created and pushed"@)
        } else {
            tagged_failure(
                "Tag '"@ + tag@ + "' created but push failed: "@ + trimmed(stderr@),
                ErrorKind::PushFailed,
            )
        }),
{
    if succeeded {
        create_success_result(join3("Tag '", tag, "' created and pushed"))
    } else {
        let mut m = join3("Tag '", tag, "' created but push failed: ");
        let t = trim_text(stderr);
        m.append(t.as_str());
        tagged_failure_result(m, ErrorKind::PushFailed)
    }
}

// ---------------------------------------------------------------------------
// Switching branches with the changes stashed
// ---------------------------------------------------------------------------

/// The message of the stash made before switching to `branch`.
pub fn auto_stash_message(branch: &str) -> (r: String)
    ensures
        r@ == "Auto-stash before switching to "@ + branch@,
{
    let mut m = String::from_str("Auto-stash before switching to ");
    m.append(branch);
    m
}

/// After stashing the changes.
pub fn stash_before_switch_step(succeeded: bool, stderr: &str) -> (r: Step)
    ensures
        step_view(r) == (if succeeded {
            None
        } else {
            Some(
                tagged_failure(
                    "Failed to stash changes: "@ + trimmed(stderr@),
                    ErrorKind::StashFailed,
                ),
            )
        }),
{
    if succeeded {
        Step::Next
    } else {
        Step::Done(fail_with("Failed to stash changes: ", stderr, ErrorKind::StashFailed))
    }
}

/// What follows the switch of a stash-and-switch.
pub enum AfterSwitch {
    /// Pop the stash back onto the branch still checked out, then report
    /// this outcome.
    PopBackThenReport(GitOperationResult),
    /// Report this outcome; the changes stay in the stash.
    Report(GitOperationResult),
    /// Pop the stash onto the new branch.
    Restore,
}

/// After switching: a failed switch has the stash popped back and is
/// reported; a successful one pops the stash when `restore`.
pub fn switch_after_stash_step(branch: &str, restore: bool, succeeded: bool, stderr: &str) -> (r:
    AfterSwitch)
    ensures
        !succeeded <==> r is PopBackThenReport,
        r matches AfterSwitch::PopBackThenReport(x) ==> x@ == tagged_failure(
            "Checkout failed (stash restored): "@ + trimmed(stderr@),
            ErrorKind::CheckoutFailed,
        ),
        (succeeded && restore) <==> r is Restore,
        r matches AfterSwitch::Report(x) ==> x@ == success_view(
            "Switched to '"@ + branch@ + "' (changes saved in stash)"@,
        ),
{
    if !succeeded {
        AfterSwitch::PopBackThenReport(
            fail_with("Checkout failed (stash restored): ", stderr, ErrorKind::CheckoutFailed),
        )
    } else if restore {
        AfterSwitch::Restore
    } else {
        AfterSwitch::Report(create_success_result(join3("Switched to '", branch, "' (changes saved in stash)")))
    }
}

/// After popping the stash on the new branch: the switch stands either way,
/// and a failed pop leaves the changes in the stash.
pub fn restore_after_switch_outcome(branch: &str, succeeded: bool, stderr: &str) -> (r:
    GitOperationResult)
    ensures
        r@ == success_view(
            if succeeded {
                "Switched to '"@ + branch@ + "' and restored changes"@
            } else {
                "Switched to '"@ + branch@
                    + "' but failed to restore changes. Your changes are in stash. Error: "@
                    + trimmed(stderr@)
            },
        ),
{
    if succeeded {
        create_success_result(join3("Switched to '", branch, "' and restored changes"))
    } else {
        let mut m = join3(
            "Switched to '",
            branch,
            "' but failed to restore changes. Your changes are in stash. Error: ",
        );
        let t = trim_text(stderr);
        m.append(t.as_str());
        create_success_result(m)
    }
}

// ---------------------------------------------------------------------------
// Fast-forwarding a branch
// ---------------------------------------------------------------------------

pub open spec fn fast_forwarded(branch: Seq<char>, remote: Seq<char>) -> Seq<char> {
    "Fast-forwarded '"@ + branch + "' from '"@ + remote + "/"@ + branch + "'"@
}

fn fast_forwarded_message(branch: &str, remote: &str) -> (r: String)
    ensures
        r@ == fast_forwarded(branch@, remote@),
{
    let mut m = join5("Fast-forwarded '", branch, "' from '", remote, "/");
    m.append(branch);
    m.append("'");
    m
}

/// After fetching the checked-out branch from its remote.
pub fn fast_forward_fetch_step(succeeded: bool, stderr: &str) -> (r: Step)
    ensures
        step_view(r) == (if succeeded {
            None
        } else {
            Some(failure_view(stderr@, ""@))
        }),
{
    if succeeded {
        Step::Next
    } else {
        Step::Done(create_error_result(stderr, ""))
    }
}

/// After the fast-forward-only merge of the checked-out branch.
pub fn fast_forward_merge_outcome(
    branch: &str,
    remote: &str,
    succeeded: bool,
    stdout: &str,
    stderr: &str,
) -> (r: GitOperationResult)
    ensures
        r@ == (if succeeded {
            success_view(fast_forwarded(branch@, remote@))
        } else if has_text(stderr@, "Not possible to fast-forward"@) || has_text(stderr@, "fatal"@) {
            tagged_failure(
                "Cannot fast-forward '"@ + branch@
                    + "': branches have diverged or are up to date"@,
                ErrorKind::FastForwardFailed,
            )
        } else {
            failure_view(stderr@, stdout@)
        }),
{
    if succeeded {
        return create_success_result(fast_forwarded_message(branch, remote));
    }
    let e = chars_of(stderr);
    if contains_str(&e, "Not possible to fast-forward") || contains_str(&e, "fatal") {
        return tagged_failure_result(
            join3("Cannot fast-forward '", branch, "': branches have diverged or are up to date"),
            ErrorKind::FastForwardFailed,
        );
    }
    create_error_result(stderr, stdout)
}

/// After fetching a branch that is not checked out straight into itself.
pub fn fast_forward_fetch_into_outcome(
    branch: &str,
    remote: &str,
    succeeded: bool,
    stdout: &str,
    stderr: &str,
) -> (r: GitOperationResult)
    ensures
        r@ == (if succeeded {
            success_view(fast_forwarded(branch@, remote@))
        } else if has_text(stderr@, "non-fast-forward"@) {
            tagged_failure(
                "Cannot fast-forward '"@ + branch@ + "': local branch has commits not in remote"@,
                ErrorKind::FastForwardFailed,
            )
        } else {
            failure_view(stderr@, stdout@)
        }),
{
    if succeeded {
        return create_success_result(fast_forwarded_message(branch, remote));
    }
    if contains_str(&chars_of(stderr), "non-fast-forward") {
        return tagged_failure_result(
            join3("Cannot fast-forward '", branch, "': local branch has commits not in remote"),
            ErrorKind::FastForwardFailed,
        );
    }
    create_error_result(stderr, stdout)
}

// ---------------------------------------------------------------------------
// Adding a host key
// ---------------------------------------------------------------------------

/// After scanning the host's keys: stop when the scan failed or found no
/// key, else go on to record them.
pub fn keyscan_step(succeeded: bool, stdout: &str, stderr: &str) -> (r: Step)
    ensures
        step_view(r) == (if !succeeded {
            Some(
                tagged_failure("Failed to scan host keys: "@ + stderr@, ErrorKind::SshKeyscanFailed),
            )
        } else if trimmed(stdout@).len() == 0 {
            Some(tagged_failure("No host keys found for this host"@, ErrorKind::NoHostKeys))
        } else {
            None
        }),
{
    if !succeeded {
        let mut m = String::from_str("Failed to scan host keys: ");
        m.append(stderr);
        return Step::Done(tagged_failure_result(m, ErrorKind::SshKeyscanFailed));
    }
    if trim_text(stdout).unicode_len() == 0 {
        return Step::Done(
            tagged_failure_result(
                String::from_str("No host keys found for this host"),
                ErrorKind::NoHostKeys,
            ),
        );
    }
    Step::Next
}

/// The outcome once the keys of `host` are recorded.
pub fn known_host_added(host: &str) -> (r: GitOperationResult)
    ensures
        r@ == success_view("Host '"@ + host@ + "' added to known hosts"@),
{
    create_success_result(join3("Host '", host, "' added to known hosts"))
}

// ---------------------------------------------------------------------------
// Starting and finishing a flow branch
// ---------------------------------------------------------------------------

/// The outcome for a flow type that is not known.
pub fn unknown_flow_type(flow_type: &str) -> (r: GitOperationResult)
    ensures
        r@ == failure_view("Unknown flow type: "@ + flow_type@, ""@),
{
    let mut m = String::from_str("Unknown flow type: ");
    m.append(flow_type);
    create_error_result(m.as_str(), "")
}

/// After creating the flow branch `name` of `kind` from `base`.
pub fn flow_start_outcome(
    kind: FlowKind,
    name: &str,
    base: &str,
    succeeded: bool,
    stdout: &str,
    stderr: &str,
) -> (r: GitOperationResult)
    ensures
        r@ == (if succeeded {
            success_view("Started "@ + kind.word() + " '"@ + name@ + "' from '"@ + base@ + "'"@)
        } else {
            failure_view(stderr@, stdout@)
        }),
{
    if !succeeded {
        return create_error_result(stderr, stdout);
    }
    let mut m = join5("Started ", kind.word_text(), " '", name, "' from '");
    m.append(base);
    m.append("'");
    create_success_result(m)
}

/// The commit message of merging flow branch `name` into `target`.
pub fn flow_merge_message(kind: FlowKind, name: &str, target: &str) -> (r: String)
    ensures
        r@ == "Merge "@ + kind.word() + " '"@ + name@ + "' into "@ + target@,
{
    let mut m = join5("Merge ", kind.word_text(), " '", name, "' into ");
    m.append(target);
    m
}

/// After switching to merge target `target`: a failure ends the operation.
pub fn flow_checkout_step(target: &str, succeeded: bool, stderr: &str) -> (r: Option<
    GitOperationResult,
>)
    ensures
        match r {
            Some(x) => !succeeded && x@ == failure_view(
                "Failed to checkout '"@ + target@ + "': "@ + stderr@,
                ""@,
            ),
            None => succeeded,
        },
{
    if succeeded {
        return None;
    }
    let mut m = join3("Failed to checkout '", target, "': ");
    m.append(stderr);
    Some(create_error_result(m.as_str(), ""))
}

/// After merging into `target`: the note to report, or the outcome that
/// ends the operation.
pub fn flow_merge_step(target: &str, succeeded: bool, stderr: &str) -> (r: Result<
    String,
    GitOperationResult,
>)
    ensures
        match r {
            Ok(note) => succeeded && note@ == "Merged into '"@ + target@ + "'"@,
            Err(x) => !succeeded && x@ == (if has_text(stderr@, "CONFLICT"@) || has_text(
                stderr@,
                "Automatic merge failed"@,
            ) {
                tagged_failure(
                    "Merge conflict while merging into '"@ + target@
                        + "'. Please resolve conflicts manually."@,
                    ErrorKind::MergeConflict,
                )
            } else {
                failure_view("Failed to merge into '"@ + target@ + "': "@ + stderr@, ""@)
            }),
        },
{
    if succeeded {
        return Ok(join3("Merged into '", target, "'"));
    }
    let e = chars_of(stderr);
    if contains_str(&e, "CONFLICT") || contains_str(&e, "Automatic merge failed") {
        return Err(
            tagged_failure_result(
                join3(
                    "Merge conflict while merging into '",
                    target,
                    "'. Please resolve conflicts manually.",
                ),
                ErrorKind::MergeConflict,
            ),
        );
    }
    let mut m = join3("Failed to merge into '", target, "': ");
    m.append(stderr);
    Err(create_error_result(m.as_str(), ""))
}

/// The message of the tag made when a release or hotfix is finished.
pub fn flow_tag_message(kind: FlowKind, name: &str) -> (r: String)
    ensures
        r@ == (if kind == FlowKind::Release {
            "Release "@
        } else {
            "Hotfix "@
        }) + name@,
{
    let mut m = String::from_str(
        match kind {
            FlowKind::Release => "Release ",
            _ => "Hotfix ",
        },
    );
    m.append(name);
    m
}

/// The note on tagging `name`; an existing tag is passed over in silence.
pub fn flow_tag_note(name: &str, succeeded: bool, stderr: &str) -> (r: Option<String>)
    ensures
        match r {
            Some(n) => if succeeded {
                n@ == "Created tag '"@ + name@ + "'"@
            } else {
                !has_text(stderr@, "already exists"@) && n@ == "Warning: Could not create tag: "@
                    + stderr@
            },
            None => !succeeded && has_text(stderr@, "already exists"@),
        },
{
    if succeeded {
        return Some(join3("Created tag '", name, "'"));
    }
    if contains_str(&chars_of(stderr), "already exists") {
        return None;
    }
    let mut m = String::from_str("Warning: Could not create tag: ");
    m.append(stderr);
    Some(m)
}

/// What follows the safe deletion of a finished flow branch.
pub enum DeleteAttempt {
    /// The branch is gone; report this note.
    Deleted(String),
    /// Try again by force.
    RetryForced,
}

/// After deleting the finished branch safely.
pub fn flow_delete_step(branch: &str, succeeded: bool) -> (r: DeleteAttempt)
    ensures
        match r {
            DeleteAttempt::Deleted(n) => succeeded && n@ == "Deleted branch '"@ + branch@ + "'"@,
            DeleteAttempt::RetryForced => !succeeded,
        },
{
    if succeeded {
        DeleteAttempt::Deleted(join3("Deleted branch '", branch, "'"))
    } else {
        DeleteAttempt::RetryForced
    }
}

/// After deleting the finished branch by force: a note when it is gone, and
/// none when it could not be deleted.
pub fn flow_forced_delete_note(branch: &str, succeeded: bool) -> (r: Option<String>)
    ensures
        match r {
            Some(n) => succeeded && n@ == "Deleted branch '"@ + branch@ + "' (force)"@,
            None => !succeeded,
        },
{
    if succeeded {
        Some(join3("Deleted branch '", branch, "' (force)"))
    } else {
        None
    }
}

/// Notes joined by ". ".
pub open spec fn joined_notes(ns: Seq<Seq<char>>) -> Seq<char>
    decreases ns.len(),
{
    if ns.len() == 0 {
        seq![]
    } else if ns.len() == 1 {
        ns[0]
    } else {
        joined_notes(ns.drop_last()) + ". "@ + ns.last()
    }
}

/// The outcome of a finished flow: its notes joined by ". ".
pub fn flow_finish_outcome(notes: &Vec<String>) -> (r: GitOperationResult)
    ensures
        r@ == success_view(joined_notes(texts(notes@))),
{
    let ghost ns = texts(notes@);
    let mut out = String::new();
    let mut i: usize = 0;
    assert(ns.take(0) =~= seq![]);
    while i < notes.len()
        invariant
            ns == texts(notes@),
            i <= notes@.len(),
            out@ == joined_notes(ns.take(i as int)),
        decreases notes@.len() - i,
    {
        let ghost before = out@;
        if i > 0 {
            out.append(". ");
        }
        out.append(notes[i].as_str());
        proof {
            let t = ns.take(i + 1);
            assert(t.drop_last() =~= ns.take(i as int));
            assert(t.last() == notes@[i as int]@);
            if i == 0 {
                assert(out@ =~= joined_notes(t));
            } else {
                assert(out@ =~= before + ". "@ + t.last());
            }
        }
        i += 1;
    }
    assert(ns.take(i as int) =~= ns);
    create_success_result(out)
}

/// The outcome once Git Flow is configured with these production and
/// development branches.
pub fn flow_initialized(master_branch: &str, develop_branch: &str) -> (r: GitOperationResult)
    ensures
        r@ == success_view(
            "Git Flow initialized with production branch '"@ + master_branch@
                + "' and development branch '"@ + develop_branch@ + "'"@,
        ),
{
    create_success_result(
        join5(
            "Git Flow initialized with production branch '",
            master_branch,
            "' and development branch '",
            develop_branch,
            "'",
        ),
    )
}

} // verus!
