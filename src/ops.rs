//! Outcomes of the single-run version-control operations: each takes the
//! exit status and output of one run and says what the user is told.
use crate::classify::{
    create_error_result, create_success_result, extract_conflicting_files, failure_view,
    conflicting_files_of, success_view, tagged_failure, tagged_failure_result, texts, ErrorKind,
    GitOperationResult, OperationView,
};
use crate::patch::{decimal, push_decimal};
use crate::text::{
    chars_of, contains_str, has_text, line_ranges, same_text, slice_chars, string_of, text_lines,
    trim_text, trimmed,
};
use vstd::prelude::*;

verus! {

/// `a`, `b` and `c` joined.
pub fn join3(a: &str, b: &str, c: &str) -> (r: String)
    ensures
        r@ == a@ + b@ + c@,
{
    let mut s = String::from_str(a);
    s.append(b);
    s.append(c);
    s
}

/// `a` to `e` joined.
pub fn join5(a: &str, b: &str, c: &str, d: &str, e: &str) -> (r: String)
    ensures
        r@ == a@ + b@ + c@ + d@ + e@,
{
    let mut s = String::from_str(a);
    s.append(b);
    s.append(c);
    s.append(d);
    s.append(e);
    s
}

/// The message of a successful switch: standard error when it reports the
/// switch (`m1` or `m2`), else standard output when there is any, else
/// `fallback`.
pub open spec fn switch_message(
    stdout: Seq<char>,
    stderr: Seq<char>,
    m1: Seq<char>,
    m2: Seq<char>,
    fallback: Seq<char>,
) -> Seq<char> {
    if has_text(stderr, m1) || has_text(stderr, m2) {
        trimmed(stderr)
    } else if stdout.len() > 0 {
        trimmed(stdout)
    } else {
        fallback
    }
}

fn switch_message_of(stdout: &str, stderr: &str, m1: &str, m2: &str, fallback: String) -> (r:
    String)
    ensures
        r@ == switch_message(stdout@, stderr@, m1@, m2@, fallback@),
{
    let e = chars_of(stderr);
    if contains_str(&e, m1) || contains_str(&e, m2) {
        trim_text(stderr)
    } else if stdout.unicode_len() > 0 {
        trim_text(stdout)
    } else {
        fallback
    }
}

/// The outcome of switching to `branch`.
pub fn checkout_outcome(branch: &str, succeeded: bool, stdout: &str, stderr: &str) -> (r:
    GitOperationResult)
    ensures
        r@ == (if succeeded {
            success_view(
                switch_message(
                    stdout@,
                    stderr@,
                    "Switched to branch"@,
                    "Cambiado a rama"@,
                    "Switched to branch '"@ + branch@ + "'"@,
                ),
            )
        } else {
            failure_view(stderr@, stdout@)
        }),
{
    if succeeded {
        let fallback = join3("Switched to branch '", branch, "'");
        create_success_result(
            switch_message_of(stdout, stderr, "Switched to branch", "Cambiado a rama", fallback),
        )
    } else {
        create_error_result(stderr, stdout)
    }
}

/// The outcome of creating `local` to track `remote` and switching to it.
pub fn checkout_track_outcome(
    local: &str,
    remote: &str,
    succeeded: bool,
    stdout: &str,
    stderr: &str,
) -> (r: GitOperationResult)
    ensures
        r@ == (if succeeded {
            success_view(
                switch_message(
                    stdout@,
                    stderr@,
                    "Switched to"@,
                    "Cambiado a"@,
                    "Branch '"@ + local@ + "' set up to track remote branch '"@ + remote@ + "'"@,
                ),
            )
        } else {
            failure_view(stderr@, stdout@)
        }),
{
    if succeeded {
        let fallback = join5("Branch '", local, "' set up to track remote branch '", remote, "'");
        create_success_result(
            switch_message_of(stdout, stderr, "Switched to", "Cambiado a", fallback),
        )
    } else {
        create_error_result(stderr, stdout)
    }
}

/// The outcome of creating `branch`, switching to it when `checkout`.
pub fn create_branch_outcome(
    branch: &str,
    checkout: bool,
    succeeded: bool,
    stdout: &str,
    stderr: &str,
) -> (r: GitOperationResult)
    ensures
        r@ == (if !succeeded {
            failure_view(stderr@, stdout@)
        } else if checkout {
            success_view(
                switch_message(
                    stdout@,
                    stderr@,
                    "Switched to"@,
                    "Cambiado a"@,
                    "Switched to a new branch '"@ + branch@ + "'"@,
                ),
            )
        } else {
            success_view("Branch '"@ + branch@ + "' created"@)
        }),
{
    if !succeeded {
        create_error_result(stderr, stdout)
    } else if checkout {
        let fallback = join3("Switched to a new branch '", branch, "'");
        create_success_result(
            switch_message_of(stdout, stderr, "Switched to", "Cambiado a", fallback),
        )
    } else {
        create_success_result(join3("Branch '", branch, "' created"))
    }
}

/// The message of a commit: the summary line when the output lists created
/// or deleted files, else the trimmed output, else a fixed text.
pub open spec fn commit_message_of(stdout: Seq<char>) -> Seq<char> {
    if has_text(stdout, "create mode"@) || has_text(stdout, "delete mode"@) {
        if text_lines(stdout).len() > 0 {
            text_lines(stdout)[0]
        } else {
            "Commit created"@
        }
    } else if trimmed(stdout).len() > 0 {
        trimmed(stdout)
    } else {
        "Commit created successfully"@
    }
}

/// The outcome of a commit.
pub fn commit_outcome(succeeded: bool, stdout: &str, stderr: &str) -> (r: GitOperationResult)
    ensures
        r@ == (if succeeded {
            success_view(commit_message_of(stdout@))
        } else {
            failure_view(stderr@, stdout@)
        }),
{
    if !succeeded {
        return create_error_result(stderr, stdout);
    }
    let o = chars_of(stdout);
    let message = if contains_str(&o, "create mode") || contains_str(&o, "delete mode") {
        let ranges = line_ranges(&o);
        if ranges.len() > 0 {
            let (a, b) = ranges[0];
            string_of(&slice_chars(&o, a, b))
        } else {
            String::from_str("Commit created")
        }
    } else {
        let t = trim_text(stdout);
        if t.unicode_len() > 0 {
            t
        } else {
            String::from_str("Commit created successfully")
        }
    };
    create_success_result(message)
}

/// The outcome of adding remote `name`.
pub fn add_remote_outcome(name: &str, succeeded: bool, stdout: &str, stderr: &str) -> (r:
    GitOperationResult)
    ensures
        r@ == (if succeeded {
            success_view("Remote '"@ + name@ + "' added successfully"@)
        } else {
            failure_view(stderr@, stdout@)
        }),
{
    if succeeded {
        create_success_result(join3("Remote '", name, "' added successfully"))
    } else {
        create_error_result(stderr, stdout)
    }
}

/// The explanation given for a failed connection test.
pub open spec fn connection_hint(stderr: Seq<char>) -> Seq<char> {
    if has_text(stderr, "Host key verification failed"@) {
        "SSH host key verification failed. Add the host to known_hosts first."@
    } else if has_text(stderr, "Permission denied"@) || has_text(stderr, "Authentication failed"@) {
        "Authentication failed. Check your credentials."@
    } else if has_text(stderr, "Could not resolve host"@) {
        "Could not resolve host. Check the URL."@
    } else if has_text(stderr, "Connection refused"@) {
        "Connection refused. Check if the server is accessible."@
    } else {
        "Could not connect to remote"@
    }
}

/// The outcome of testing the connection to a remote: the failure is
/// classified from the explanation, with the tool's error text as output.
pub fn remote_test_outcome(succeeded: bool, stderr: &str) -> (r: GitOperationResult)
    ensures
        r@ == (if succeeded {
            success_view("Connection successful"@)
        } else {
            failure_view(connection_hint(stderr@), stderr@)
        }),
{
    if succeeded {
        return create_success_result(String::from_str("Connection successful"));
    }
    let e = chars_of(stderr);
    let hint = if contains_str(&e, "Host key verification failed") {
        "SSH host key verification failed. Add the host to known_hosts first."
    } else if contains_str(&e, "Permission denied") || contains_str(&e, "Authentication failed") {
        "Authentication failed. Check your credentials."
    } else if contains_str(&e, "Could not resolve host") {
        "Could not resolve host. Check the URL."
    } else if contains_str(&e, "Connection refused") {
        "Connection refused. Check if the server is accessible."
    } else {
        "Could not connect to remote"
    };
    create_error_result(hint, stderr)
}

/// The outcome of saving a stash.
pub fn stash_save_outcome(succeeded: bool, stdout: &str, stderr: &str) -> (r: GitOperationResult)
    ensures
        r@ == (if succeeded {
            success_view("Stash saved successfully"@)
        } else if has_text(stderr@, "No local changes to save"@) || has_text(
            stdout@,
            "No local changes to save"@,
        ) {
            tagged_failure("No local changes to save"@, ErrorKind::NoChanges)
        } else {
            failure_view(stderr@, stdout@)
        }),
{
    if succeeded {
        return create_success_result(String::from_str("Stash saved successfully"));
    }
    if contains_str(&chars_of(stderr), "No local changes to save") || contains_str(
        &chars_of(stdout),
        "No local changes to save",
    ) {
        return tagged_failure_result(String::from_str("No local changes to save"), ErrorKind::NoChanges);
    }
    create_error_result(stderr, stdout)
}

pub open spec fn stash_conflict_text(pop: bool) -> Seq<char> {
    if pop {
        "Stash popped with conflicts. Resolve conflicts and commit. The stash was not dropped.\n"@
    } else {
        "Stash applied with conflicts. Resolve conflicts and commit.\n"@
    }
}

/// The outcome of applying a stash, or of popping it when `pop`.
pub fn stash_apply_outcome(pop: bool, succeeded: bool, stdout: &str, stderr: &str) -> (r:
    GitOperationResult)
    ensures
        r@ == (if succeeded {
            success_view(
                if pop {
                    "Stash popped successfully"@
                } else {
                    "Stash applied successfully"@
                },
            )
        } else if has_text(stderr@, "CONFLICT"@) || has_text(stdout@, "CONFLICT"@) {
            tagged_failure(stash_conflict_text(pop) + trimmed(stderr@), ErrorKind::Conflicts)
        } else {
            failure_view(stderr@, stdout@)
        }),
{
    if succeeded {
        return create_success_result(
            String::from_str(
                if pop {
                    "Stash popped successfully"
                } else {
                    "Stash applied successfully"
                },
            ),
        );
    }
    if contains_str(&chars_of(stderr), "CONFLICT") || contains_str(&chars_of(stdout), "CONFLICT") {
        let mut m = String::from_str(
            if pop {
                "Stash popped with conflicts. Resolve conflicts and commit. The stash was not dropped.\n"
            } else {
                "Stash applied with conflicts. Resolve conflicts and commit.\n"
            },
        );
        let t = trim_text(stderr);
        m.append(t.as_str());
        return tagged_failure_result(m, ErrorKind::Conflicts);
    }
    create_error_result(stderr, stdout)
}

pub open spec fn stash_ref_text(index: nat) -> Seq<char> {
    "stash@{"@ + decimal(index) + "}"@
}

/// The reference of the stash at `index`: "stash@{index}".
pub fn stash_ref(index: usize) -> (r: String)
    ensures
        r@ == stash_ref_text(index as nat),
{
    let mut s = String::from_str("stash@{");
    push_decimal(&mut s, index as u64);
    s.append("}");
    s
}

/// The outcome of dropping the stash at `index`.
pub fn stash_drop_outcome(index: usize, succeeded: bool, stdout: &str, stderr: &str) -> (r:
    GitOperationResult)
    ensures
        r@ == (if succeeded {
            success_view("Stash "@ + stash_ref_text(index as nat) + " dropped"@)
        } else {
            failure_view(stderr@, stdout@)
        }),
{
    if succeeded {
        let mut m = String::from_str("Stash ");
        let sr = stash_ref(index);
        m.append(sr.as_str());
        m.append(" dropped");
        create_success_result(m)
    } else {
        create_error_result(stderr, stdout)
    }
}

/// How a branch is merged.
#[derive(Clone, Copy, Debug, PartialEq, Eq, Structural)]
pub enum MergeStrategy {
    /// Fast-forward when possible.
    Default,
    /// Always create a merge commit.
    NoFastForward,
    /// Stage the combined changes without committing.
    Squash,
}

impl MergeStrategy {
    /// The strategy named by the user interface: "no-ff", "squash", or
    /// anything else for the default.
    pub fn parse(s: &str) -> (r: MergeStrategy)
        ensures
            r == (if s@ == "no-ff"@ {
                MergeStrategy::NoFastForward
            } else if s@ == "squash"@ {
                MergeStrategy::Squash
            } else {
                MergeStrategy::Default
            }),
    {
        if same_text(s, "no-ff") {
            MergeStrategy::NoFastForward
        } else if same_text(s, "squash") {
            MergeStrategy::Squash
        } else {
            MergeStrategy::Default
        }
    }

    pub open spec fn flag_spec(self) -> Option<Seq<char>> {
        match self {
            MergeStrategy::Default => None,
            MergeStrategy::NoFastForward => Some("--no-ff"@),
            MergeStrategy::Squash => Some("--squash"@),
        }
    }

    /// The merge flag of this strategy, if any.
    pub fn flag(&self) -> (r: Option<&'static str>)
        ensures
            match r {
                Some(f) => self.flag_spec() == Some(f@),
                None => self.flag_spec() is None,
            },
    {
        match self {
            MergeStrategy::Default => None,
            MergeStrategy::NoFastForward => Some("--no-ff"),
            MergeStrategy::Squash => Some("--squash"),
        }
    }
}

/// The merge run stopped on conflicts.
pub open spec fn merge_stopped_on_conflicts(stdout: Seq<char>, stderr: Seq<char>) -> bool {
    has_text(stdout, "CONFLICT"@) || has_text(stderr, "CONFLICT"@) || has_text(
        stdout,
        "Automatic merge failed"@,
    ) || has_text(stderr, "Automatic merge failed"@)
}

pub open spec fn merge_view(
    strategy: MergeStrategy,
    succeeded: bool,
    stdout: Seq<char>,
    stderr: Seq<char>,
) -> OperationView {
    if !succeeded {
        if merge_stopped_on_conflicts(stdout, stderr) {
            OperationView {
                success: false,
                message: "Merge conflicts detected. Resolve conflicts and commit.\n"@ + trimmed(
                    stdout,
                ) + if stderr.len() == 0 {
                    seq![]
                } else {
                    "\n"@ + trimmed(stderr)
                },
                ssh: None,
                credential: None,
                error_type: Some(ErrorKind::MergeConflicts),
                files: Some(conflicting_files_of(stdout) + conflicting_files_of(stderr)),
            }
        } else {
            failure_view(stderr, stdout)
        }
    } else if strategy == MergeStrategy::Squash {
        success_view(
            "Squash merge completed. Changes are staged but not committed.\n"@ + trimmed(stdout),
        )
    } else {
        success_view("Merge completed successfully.\n"@ + trimmed(stdout))
    }
}

/// The outcome of a merge run.
pub fn merge_outcome(strategy: MergeStrategy, succeeded: bool, stdout: &str, stderr: &str) -> (r:
    GitOperationResult)
    ensures
        r@ == merge_view(strategy, succeeded, stdout@, stderr@),
{
    if !succeeded {
        let o = chars_of(stdout);
        let e = chars_of(stderr);
        if contains_str(&o, "CONFLICT") || contains_str(&e, "CONFLICT") || contains_str(
            &o,
            "Automatic merge failed",
        ) || contains_str(&e, "Automatic merge failed") {
            let mut files = extract_conflicting_files(stdout);
            let mut more = extract_conflicting_files(stderr);
            let ghost a = files@;
            let ghost b = more@;
            files.append(&mut more);
            assert(texts(files@) =~= texts(a) + texts(b));
            let mut m = String::from_str("Merge conflicts detected. Resolve conflicts and commit.\n");
            let t = trim_text(stdout);
            m.append(t.as_str());
            if e.len() > 0 {
                m.append("\n");
                let te = trim_text(stderr);
                m.append(te.as_str());
            }
            assert(m@ =~= "Merge conflicts detected. Resolve conflicts and commit.\n"@ + trimmed(stdout@)
                + if stderr@.len() == 0 {
                seq![]
            } else {
                "\n"@ + trimmed(stderr@)
            });
            return GitOperationResult {
                success: false,
                message: m,
                requires_ssh_verification: None,
                requires_credential: None,
                error_type: Some(ErrorKind::MergeConflicts),
                conflicting_files: Some(files),
            };
        }
        return create_error_result(stderr, stdout);
    }
    let t = trim_text(stdout);
    let mut m = match strategy {
        MergeStrategy::Squash => String::from_str(
            "Squash merge completed. Changes are staged but not committed.\n",
        ),
        _ => String::from_str("Merge completed successfully.\n"),
    };
    m.append(t.as_str());
    create_success_result(m)
}

/// The outcome of aborting a merge.
pub fn merge_abort_outcome(succeeded: bool, stdout: &str, stderr: &str) -> (r: GitOperationResult)
    ensures
        r@ == (if succeeded {
            success_view("Merge aborted successfully."@)
        } else if has_text(stderr@, "no merge to abort"@) || has_text(
            stderr@,
            "There is no merge to abort"@,
        ) {
            tagged_failure("No merge in progress to abort."@, ErrorKind::NoMergeInProgress)
        } else {
            failure_view(stderr@, stdout@)
        }),
{
    if succeeded {
        return create_success_result(String::from_str("Merge aborted successfully."));
    }
    let e = chars_of(stderr);
    if contains_str(&e, "no merge to abort") || contains_str(&e, "There is no merge to abort") {
        return tagged_failure_result(
            String::from_str("No merge in progress to abort."),
            ErrorKind::NoMergeInProgress,
        );
    }
    create_error_result(stderr, stdout)
}

/// The lines of `s`, each as a string of its own.
pub fn lines_of(s: &str) -> (r: Vec<String>)
    ensures
        texts(r@) == text_lines(s@),
{
    let c = chars_of(s);
    let ranges = line_ranges(&c);
    let mut out: Vec<String> = Vec::new();
    let mut i: usize = 0;
    while i < ranges.len()
        invariant
            c@ == s@,
            ranges@.len() == text_lines(c@).len(),
            forall|k: int| 0 <= k < ranges@.len() ==> #[trigger] ranges@[k].0 <= ranges@[k].1 <= c@.len(),
            forall|k: int|
                0 <= k < ranges@.len() ==> c@.subrange(ranges@[k].0 as int, ranges@[k].1 as int)
                    == #[trigger] text_lines(c@)[k],
            i <= ranges@.len(),
            texts(out@) == text_lines(c@).take(i as int),
        decreases ranges@.len() - i,
    {
        let (a, b) = ranges[i];
        let l = string_of(&slice_chars(&c, a, b));
        let ghost before = out@;
        out.push(l);
        assert(texts(out@) =~= texts(before).push(l@));
        assert(text_lines(c@).take(i + 1) =~= text_lines(c@).take(i as int).push(text_lines(c@)[i as int]));
        i += 1;
    }
    assert(text_lines(c@).take(i as int) =~= text_lines(c@));
    out
}

/// The rebase run stopped on conflicts.
pub open spec fn rebase_conflicted(interactive: bool, stdout: Seq<char>, stderr: Seq<char>) -> bool {
    has_text(stderr, "CONFLICT"@) || has_text(stderr, "conflict"@) || has_text(stdout, "CONFLICT"@)
        || if interactive {
        has_text(stdout, "conflict"@)
    } else {
        has_text(stdout, "could not apply"@)
    }
}

/// Whether the conflicted paths are to be listed before the outcome of a
/// rebase run can be given.
pub fn rebase_needs_conflict_list(interactive: bool, succeeded: bool, stdout: &str, stderr: &str) -> (r:
    bool)
    ensures
        r == (!succeeded && rebase_conflicted(interactive, stdout@, stderr@)),
{
    if succeeded {
        return false;
    }
    let o = chars_of(stdout);
    let e = chars_of(stderr);
    contains_str(&e, "CONFLICT") || contains_str(&e, "conflict") || contains_str(&o, "CONFLICT")
        || if interactive {
        contains_str(&o, "conflict")
    } else {
        contains_str(&o, "could not apply")
    }
}

pub open spec fn rebase_view(
    target: Seq<char>,
    interactive: bool,
    succeeded: bool,
    stdout: Seq<char>,
    stderr: Seq<char>,
    conflict_list: Seq<char>,
) -> OperationView {
    if !succeeded {
        if rebase_conflicted(interactive, stdout, stderr) {
            OperationView {
                success: false,
                message: "Rebase conflicts detected. Please resolve conflicts and run 'git rebase --continue'."@,
                ssh: None,
                credential: None,
                error_type: Some(ErrorKind::RebaseConflicts),
                files: Some(text_lines(conflict_list)),
            }
        } else {
            failure_view(stderr, stdout)
        }
    } else if has_text(stdout, "is up to date"@) || has_text(stdout, "Already applied"@) {
        success_view("Already up to date, nothing to rebase."@)
    } else {
        success_view(
            (if interactive {
                "Interactive rebase onto '"@
            } else {
                "Rebase onto '"@
            }) + target + "' completed successfully."@,
        )
    }
}

/// The outcome of a rebase onto `target`; `conflict_list` is the list of
/// conflicted paths, one per line, asked for when the run stopped on
/// conflicts.
pub fn rebase_outcome(
    target: &str,
    interactive: bool,
    succeeded: bool,
    stdout: &str,
    stderr: &str,
    conflict_list: &str,
) -> (r: GitOperationResult)
    ensures
        r@ == rebase_view(target@, interactive, succeeded, stdout@, stderr@, conflict_list@),
{
    if !succeeded {
        if rebase_needs_conflict_list(interactive, succeeded, stdout, stderr) {
            return GitOperationResult {
                success: false,
                message: String::from_str(
                    "Rebase conflicts detected. Please resolve conflicts and run 'git rebase --continue'.",
                ),
                requires_ssh_verification: None,
                requires_credential: None,
                error_type: Some(ErrorKind::RebaseConflicts),
                conflicting_files: Some(lines_of(conflict_list)),
            };
        }
        return create_error_result(stderr, stdout);
    }
    let o = chars_of(stdout);
    if contains_str(&o, "is up to date") || contains_str(&o, "Already applied") {
        return create_success_result(String::from_str("Already up to date, nothing to rebase."));
    }
    let m = join3(
        if interactive {
            "Interactive rebase onto '"
        } else {
            "Rebase onto '"
        },
        target,
        "' completed successfully.",
    );
    create_success_result(m)
}

/// No rebase was in progress.
pub open spec fn no_rebase(stderr: Seq<char>) -> bool {
    has_text(stderr, "No rebase in progress"@) || has_text(stderr, "no rebase in progress"@)
}

/// The outcome of aborting a rebase.
pub fn rebase_abort_outcome(succeeded: bool, stdout: &str, stderr: &str) -> (r: GitOperationResult)
    ensures
        r@ == (if succeeded {
            success_view("Rebase aborted successfully."@)
        } else if no_rebase(stderr@) {
            tagged_failure("No rebase in progress to abort."@, ErrorKind::NoRebaseInProgress)
        } else {
            failure_view(stderr@, stdout@)
        }),
{
    if succeeded {
        return create_success_result(String::from_str("Rebase aborted successfully."));
    }
    let e = chars_of(stderr);
    if contains_str(&e, "No rebase in progress") || contains_str(&e, "no rebase in progress") {
        return tagged_failure_result(
            String::from_str("No rebase in progress to abort."),
            ErrorKind::NoRebaseInProgress,
        );
    }
    create_error_result(stderr, stdout)
}

/// The outcome of continuing a rebase.
pub fn rebase_continue_outcome(succeeded: bool, stdout: &str, stderr: &str) -> (r: GitOperationResult)
    ensures
        r@ == (if succeeded {
            success_view("Rebase continued successfully."@)
        } else if has_text(stderr@, "CONFLICT"@) || has_text(stderr@, "conflict"@) {
            tagged_failure("There are still unresolved conflicts."@, ErrorKind::RebaseConflicts)
        } else if no_rebase(stderr@) {
            tagged_failure("No rebase in progress."@, ErrorKind::NoRebaseInProgress)
        } else {
            failure_view(stderr@, stdout@)
        }),
{
    if succeeded {
        return create_success_result(String::from_str("Rebase continued successfully."));
    }
    let e = chars_of(stderr);
    if contains_str(&e, "CONFLICT") || contains_str(&e, "conflict") {
        return tagged_failure_result(
            String::from_str("There are still unresolved conflicts."),
            ErrorKind::RebaseConflicts,
        );
    }
    if contains_str(&e, "No rebase in progress") || contains_str(&e, "no rebase in progress") {
        return tagged_failure_result(
            String::from_str("No rebase in progress."),
            ErrorKind::NoRebaseInProgress,
        );
    }
    create_error_result(stderr, stdout)
}

/// The arguments of saving a stash: untracked files and the staged state
/// kept on request, and the message when it has more than white space.
pub fn stash_save_args(message: Option<&str>, include_untracked: bool, keep_index: bool) -> (r: Vec<
    String,
>)
    ensures
        texts(r@) == seq!["stash"@, "push"@] + (if include_untracked {
            seq!["-u"@]
        } else {
            seq![]
        }) + (if keep_index {
            seq!["--keep-index"@]
        } else {
            seq![]
        }) + (match message {
            Some(m) => if trimmed(m@).len() > 0 {
                seq!["-m"@, m@]
            } else {
                seq![]
            },
            None => seq![],
        }),
{
    let mut v: Vec<String> = Vec::new();
    v.push(String::from_str("stash"));
    v.push(String::from_str("push"));
    if include_untracked {
        v.push(String::from_str("-u"));
    }
    if keep_index {
        v.push(String::from_str("--keep-index"));
    }
    if let Some(m) = message {
        if trim_text(m).unicode_len() > 0 {
            v.push(String::from_str("-m"));
            v.push(String::from_str(m));
        }
    }
    assert(texts(v@) =~= seq!["stash"@, "push"@] + (if include_untracked {
        seq!["-u"@]
    } else {
        seq![]
    }) + (if keep_index {
        seq!["--keep-index"@]
    } else {
        seq![]
    }) + (match message {
        Some(m) => if trimmed(m@).len() > 0 {
            seq!["-m"@, m@]
        } else {
            seq![]
        },
        None => seq![],
    }));
    v
}

} // verus!
