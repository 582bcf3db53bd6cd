//! Reduction of a version-control command's exit status, standard output
//! and standard error to one typed outcome.
use crate::text::{
    begins_with, chars_of, contains_str, find_str, has_text, line_ranges, lower_of, lowercase,
    position, same_text, slice_chars, starts_with_str, string_of, strip_trailing, strip_trailing_chars,
    text_lines, trim_range, trim_text, trimmed, word_ranges, words,
};
use vstd::prelude::*;

verus! {

/// The closed set of outcome tags.
#[derive(Clone, Copy, Debug, PartialEq, Eq, Structural)]
pub enum ErrorKind {
    SshHostVerification,
    CredentialRequired,
    SshHostVerificationFailed,
    AuthenticationFailed,
    RemoteAccessFailed,
    ConnectionRefused,
    ConnectionTimeout,
    HostNotFound,
    CheckoutWouldOverwrite,
    DivergentBranches,
    GitError,
    MergeConflicts,
    RebaseConflicts,
    MergeConflict,
    Conflicts,
    SshKeyscanFailed,
    NoHostKeys,
    StashFailed,
    CheckoutFailed,
    PushFailed,
    DeleteRemoteFailed,
    NotMerged,
    NoChanges,
    NoMergeInProgress,
    NoRebaseInProgress,
    FastForwardFailed,
}

impl ErrorKind {
    pub open spec fn tag_spec(self) -> Seq<char> {
        match self {
            ErrorKind::SshHostVerification => "ssh_host_verification"@,
            ErrorKind::CredentialRequired => "credential_required"@,
            ErrorKind::SshHostVerificationFailed => "ssh_host_verification_failed"@,
            ErrorKind::AuthenticationFailed => "authentication_failed"@,
            ErrorKind::RemoteAccessFailed => "remote_access_failed"@,
            ErrorKind::ConnectionRefused => "connection_refused"@,
            ErrorKind::ConnectionTimeout => "connection_timeout"@,
            ErrorKind::HostNotFound => "host_not_found"@,
            ErrorKind::CheckoutWouldOverwrite => "checkout_would_overwrite"@,
            ErrorKind::DivergentBranches => "divergent_branches"@,
            ErrorKind::GitError => "git_error"@,
            ErrorKind::MergeConflicts => "merge_conflicts"@,
            ErrorKind::RebaseConflicts => "rebase_conflicts"@,
            ErrorKind::MergeConflict => "merge_conflict"@,
            ErrorKind::Conflicts => "conflicts"@,
            ErrorKind::SshKeyscanFailed => "ssh_keyscan_failed"@,
            ErrorKind::NoHostKeys => "no_host_keys"@,
            ErrorKind::StashFailed => "stash_failed"@,
            ErrorKind::CheckoutFailed => "checkout_failed"@,
            ErrorKind::PushFailed => "push_failed"@,
            ErrorKind::DeleteRemoteFailed => "delete_remote_failed"@,
            ErrorKind::NotMerged => "not_merged"@,
            ErrorKind::NoChanges => "no_changes"@,
            ErrorKind::NoMergeInProgress => "no_merge_in_progress"@,
            ErrorKind::NoRebaseInProgress => "no_rebase_in_progress"@,
            ErrorKind::FastForwardFailed => "fast_forward_failed"@,
        }
    }

    /// The kind whose tag is `s`, if any.
    pub fn from_tag(s: &str) -> (r: Option<ErrorKind>)
        ensures
            match r {
                Some(k) => k.tag_spec() == s@,
                None => forall|k: ErrorKind| k.tag_spec() != s@,
            },
    {
        if same_text(s, "ssh_host_verification") {
            Some(ErrorKind::SshHostVerification)
        } else if same_text(s, "credential_required") {
            Some(ErrorKind::CredentialRequired)
        } else if same_text(s, "ssh_host_verification_failed") {
            Some(ErrorKind::SshHostVerificationFailed)
        } else if same_text(s, "authentication_failed") {
            Some(ErrorKind::AuthenticationFailed)
        } else if same_text(s, "remote_access_failed") {
            Some(ErrorKind::RemoteAccessFailed)
        } else if same_text(s, "connection_refused") {
            Some(ErrorKind::ConnectionRefused)
        } else if same_text(s, "connection_timeout") {
            Some(ErrorKind::ConnectionTimeout)
        } else if same_text(s, "host_not_found") {
            Some(ErrorKind::HostNotFound)
        } else if same_text(s, "checkout_would_overwrite") {
            Some(ErrorKind::CheckoutWouldOverwrite)
        } else if same_text(s, "divergent_branches") {
            Some(ErrorKind::DivergentBranches)
        } else if same_text(s, "git_error") {
            Some(ErrorKind::GitError)
        } else if same_text(s, "merge_conflicts") {
            Some(ErrorKind::MergeConflicts)
        } else if same_text(s, "rebase_conflicts") {
            Some(ErrorKind::RebaseConflicts)
        } else if same_text(s, "merge_conflict") {
            Some(ErrorKind::MergeConflict)
        } else if same_text(s, "conflicts") {
            Some(ErrorKind::Conflicts)
        } else if same_text(s, "ssh_keyscan_failed") {
            Some(ErrorKind::SshKeyscanFailed)
        } else if same_text(s, "no_host_keys") {
            Some(ErrorKind::NoHostKeys)
        } else if same_text(s, "stash_failed") {
            Some(ErrorKind::StashFailed)
        } else if same_text(s, "checkout_failed") {
            Some(ErrorKind::CheckoutFailed)
        } else if same_text(s, "push_failed") {
            Some(ErrorKind::PushFailed)
        } else if same_text(s, "delete_remote_failed") {
            Some(ErrorKind::DeleteRemoteFailed)
        } else if same_text(s, "not_merged") {
            Some(ErrorKind::NotMerged)
        } else if same_text(s, "no_changes") {
            Some(ErrorKind::NoChanges)
        } else if same_text(s, "no_merge_in_progress") {
            Some(ErrorKind::NoMergeInProgress)
        } else if same_text(s, "no_rebase_in_progress") {
            Some(ErrorKind::NoRebaseInProgress)
        } else if same_text(s, "fast_forward_failed") {
            Some(ErrorKind::FastForwardFailed)
        } else {
            None
        }
    }

    /// The tag's text, as the user interface receives it.
    pub fn tag(&self) -> (r: String)
        ensures
            r@ == self.tag_spec(),
    {
        let s = match self {
            ErrorKind::SshHostVerification => "ssh_host_verification",
            ErrorKind::CredentialRequired => "credential_required",
            ErrorKind::SshHostVerificationFailed => "ssh_host_verification_failed",
            ErrorKind::AuthenticationFailed => "authentication_failed",
            ErrorKind::RemoteAccessFailed => "remote_access_failed",
            ErrorKind::ConnectionRefused => "connection_refused",
            ErrorKind::ConnectionTimeout => "connection_timeout",
            ErrorKind::HostNotFound => "host_not_found",
            ErrorKind::CheckoutWouldOverwrite => "checkout_would_overwrite",
            ErrorKind::DivergentBranches => "divergent_branches",
            ErrorKind::GitError => "git_error",
            ErrorKind::MergeConflicts => "merge_conflicts",
            ErrorKind::RebaseConflicts => "rebase_conflicts",
            ErrorKind::MergeConflict => "merge_conflict",
            ErrorKind::Conflicts => "conflicts",
            ErrorKind::SshKeyscanFailed => "ssh_keyscan_failed",
            ErrorKind::NoHostKeys => "no_host_keys",
            ErrorKind::StashFailed => "stash_failed",
            ErrorKind::CheckoutFailed => "checkout_failed",
            ErrorKind::PushFailed => "push_failed",
            ErrorKind::DeleteRemoteFailed => "delete_remote_failed",
            ErrorKind::NotMerged => "not_merged",
            ErrorKind::NoChanges => "no_changes",
            ErrorKind::NoMergeInProgress => "no_merge_in_progress",
            ErrorKind::NoRebaseInProgress => "no_rebase_in_progress",
            ErrorKind::FastForwardFailed => "fast_forward_failed",
        };
        String::from_str(s)
    }
}

/// What a credential prompt asks for.
#[derive(Clone, Copy, Debug, PartialEq, Eq, Structural)]
pub enum CredentialKind {
    Username,
    Password,
    Passphrase,
}

impl CredentialKind {
    pub open spec fn tag_spec(self) -> Seq<char> {
        match self {
            CredentialKind::Username => "username"@,
            CredentialKind::Password => "password"@,
            CredentialKind::Passphrase => "passphrase"@,
        }
    }

    /// The kind whose text is `s`, if any.
    pub fn from_tag(s: &str) -> (r: Option<CredentialKind>)
        ensures
            match r {
                Some(k) => k.tag_spec() == s@,
                None => forall|k: CredentialKind| k.tag_spec() != s@,
            },
    {
        if same_text(s, "username") {
            Some(CredentialKind::Username)
        } else if same_text(s, "password") {
            Some(CredentialKind::Password)
        } else if same_text(s, "passphrase") {
            Some(CredentialKind::Passphrase)
        } else {
            None
        }
    }

    /// The kind's text, as the user interface receives it.
    pub fn tag(&self) -> (r: String)
        ensures
            r@ == self.tag_spec(),
    {
        let s = match self {
            CredentialKind::Username => "username",
            CredentialKind::Password => "password",
            CredentialKind::Passphrase => "passphrase",
        };
        String::from_str(s)
    }
}

#[derive(Clone, Debug)]
pub struct SshHostVerification {
    pub host: String,
    pub key_type: String,
    pub fingerprint: String,
}

pub struct SshHostView {
    pub host: Seq<char>,
    pub key_type: Seq<char>,
    pub fingerprint: Seq<char>,
}

impl View for SshHostVerification {
    type V = SshHostView;

    open spec fn view(&self) -> SshHostView {
        SshHostView { host: self.host@, key_type: self.key_type@, fingerprint: self.fingerprint@ }
    }
}

#[derive(Clone, Debug)]
pub struct CredentialRequest {
    pub credential_type: CredentialKind,
    pub prompt: String,
    pub host: Option<String>,
}

pub struct CredentialView {
    pub kind: CredentialKind,
    pub prompt: Seq<char>,
    pub host: Option<Seq<char>>,
}

pub open spec fn opt_text(o: Option<String>) -> Option<Seq<char>> {
    match o {
        Some(s) => Some(s@),
        None => None,
    }
}

pub open spec fn texts(v: Seq<String>) -> Seq<Seq<char>> {
    v.map_values(|s: String| s@)
}

impl View for CredentialRequest {
    type V = CredentialView;

    open spec fn view(&self) -> CredentialView {
        CredentialView { kind: self.credential_type, prompt: self.prompt@, host: opt_text(self.host) }
    }
}

/// The outcome of one version-control invocation.
#[derive(Clone, Debug)]
pub struct GitOperationResult {
    pub success: bool,
    pub message: String,
    pub requires_ssh_verification: Option<SshHostVerification>,
    pub requires_credential: Option<CredentialRequest>,
    pub error_type: Option<ErrorKind>,
    pub conflicting_files: Option<Vec<String>>,
}

pub struct OperationView {
    pub success: bool,
    pub message: Seq<char>,
    pub ssh: Option<SshHostView>,
    pub credential: Option<CredentialView>,
    pub error_type: Option<ErrorKind>,
    pub files: Option<Seq<Seq<char>>>,
}

impl View for GitOperationResult {
    type V = OperationView;

    open spec fn view(&self) -> OperationView {
        OperationView {
            success: self.success,
            message: self.message@,
            ssh: match self.requires_ssh_verification {
                Some(v) => Some(v@),
                None => None,
            },
            credential: match self.requires_credential {
                Some(c) => Some(c@),
                None => None,
            },
            error_type: self.error_type,
            files: match self.conflicting_files {
                Some(f) => Some(texts(f@)),
                None => None,
            },
        }
    }
}

impl OperationView {
    /// A successful outcome carries nothing but its message, and a failed one
    /// asks for at most one of host verification and credentials.
    pub open spec fn well_formed(self) -> bool {
        &&& self.success ==> (self.ssh is None && self.credential is None && self.error_type is None
            && self.files is None)
        &&& !(self.ssh is Some && self.credential is Some)
    }
}

// ---------------------------------------------------------------------------
// Error tags
// ---------------------------------------------------------------------------

/// The error tag of a lower-cased standard error: the first rule that matches.
pub open spec fn error_kind_of(l: Seq<char>) -> Option<ErrorKind> {
    if has_text(l, "host key verification failed"@) {
        Some(ErrorKind::SshHostVerificationFailed)
    } else if has_text(l, "permission denied"@) || has_text(l, "publickey"@) {
        Some(ErrorKind::AuthenticationFailed)
    } else if has_text(l, "could not read from remote"@) || has_text(
        l,
        "no se pudo leer del repositorio remoto"@,
    ) {
        Some(ErrorKind::RemoteAccessFailed)
    } else if has_text(l, "connection refused"@) || has_text(l, "conexi\u{f3}n rechazada"@) {
        Some(ErrorKind::ConnectionRefused)
    } else if has_text(l, "connection timed out"@) || has_text(l, "tiempo de espera agotado"@) {
        Some(ErrorKind::ConnectionTimeout)
    } else if has_text(l, "could not resolve host"@) || has_text(l, "no se pudo resolver"@) {
        Some(ErrorKind::HostNotFound)
    } else if has_text(l, "would be overwritten by checkout"@) || has_text(
        l,
        "ser\u{ed}an sobrescritos por checkout"@,
    ) || has_text(l, "ser\u{e1}n sobrescritos por checkout"@) {
        Some(ErrorKind::CheckoutWouldOverwrite)
    } else if has_text(l, "divergent branches"@) || has_text(
        l,
        "need to specify how to reconcile"@,
    ) || has_text(l, "ramas divergentes"@) {
        Some(ErrorKind::DivergentBranches)
    } else if has_text(l, "fatal:"@) {
        Some(ErrorKind::GitError)
    } else {
        None
    }
}

/// The error tag of a standard error that has already been lower-cased.
pub fn error_kind_of_lowered(lowered: &str) -> (r: Option<ErrorKind>)
    ensures
        r == error_kind_of(lowered@),
{
    let l = chars_of(lowered);
    if contains_str(&l, "host key verification failed") {
        Some(ErrorKind::SshHostVerificationFailed)
    } else if contains_str(&l, "permission denied") || contains_str(&l, "publickey") {
        Some(ErrorKind::AuthenticationFailed)
    } else if contains_str(&l, "could not read from remote") || contains_str(
        &l,
        "no se pudo leer del repositorio remoto",
    ) {
        Some(ErrorKind::RemoteAccessFailed)
    } else if contains_str(&l, "connection refused") || contains_str(&l, "conexi\u{f3}n rechazada") {
        Some(ErrorKind::ConnectionRefused)
    } else if contains_str(&l, "connection timed out") || contains_str(
        &l,
        "tiempo de espera agotado",
    ) {
        Some(ErrorKind::ConnectionTimeout)
    } else if contains_str(&l, "could not resolve host") || contains_str(&l, "no se pudo resolver") {
        Some(ErrorKind::HostNotFound)
    } else if contains_str(&l, "would be overwritten by checkout") || contains_str(
        &l,
        "ser\u{ed}an sobrescritos por checkout",
    ) || contains_str(&l, "ser\u{e1}n sobrescritos por checkout") {
        Some(ErrorKind::CheckoutWouldOverwrite)
    } else if contains_str(&l, "divergent branches") || contains_str(
        &l,
        "need to specify how to reconcile",
    ) || contains_str(&l, "ramas divergentes") {
        Some(ErrorKind::DivergentBranches)
    } else if contains_str(&l, "fatal:") {
        Some(ErrorKind::GitError)
    } else {
        None
    }
}

/// The error tag of a standard error, matched case-insensitively.
pub fn detect_error_type(stderr: &str) -> (r: Option<ErrorKind>)
    ensures
        r == error_kind_of(lower_of(stderr@)),
{
    let lowered = lowercase(stderr);
    error_kind_of_lowered(lowered.as_str())
}

} // verus!

verus! {

// ---------------------------------------------------------------------------
// Files named in a checkout refusal
// ---------------------------------------------------------------------------

/// A line that opens a list of files: those a checkout would overwrite, or
/// a reported conflict.
pub open spec fn is_overwrite_marker(t: Seq<char>) -> bool {
    has_text(t, "would be overwritten"@) || has_text(t, "ser\u{ed}an sobrescritos"@) || has_text(
        t,
        "ser\u{e1}n sobrescritos"@,
    ) || has_text(t, "CONFLICT"@)
}

/// A line that closes that list.
pub open spec fn is_list_end(t: Seq<char>) -> bool {
    begins_with(t, "Please"@) || begins_with(t, "Por favor"@) || has_text(t, "Aborting"@)
        || has_text(t, "Abortando"@)
}

/// The trimmed, non-empty lines after a marker line, up to a closing line;
/// `listing` tells whether a marker line has been seen.
pub open spec fn listed_files(ls: Seq<Seq<char>>, listing: bool) -> Seq<Seq<char>>
    decreases ls.len(),
{
    if ls.len() == 0 {
        seq![]
    } else {
        let t = trimmed(ls[0]);
        if is_overwrite_marker(t) {
            listed_files(ls.drop_first(), true)
        } else if is_list_end(t) {
            seq![]
        } else if listing && t.len() > 0 && !begins_with(t, "error"@) {
            seq![t] + listed_files(ls.drop_first(), listing)
        } else {
            listed_files(ls.drop_first(), listing)
        }
    }
}

pub open spec fn conflicting_files_of(e: Seq<char>) -> Seq<Seq<char>> {
    listed_files(text_lines(e), false)
}

proof fn lemma_texts_push(v: Seq<String>, s: String)
    ensures
        texts(v.push(s)) == texts(v).push(s@),
{
    assert(texts(v.push(s)) =~= texts(v).push(s@));
}

fn overwrite_marker_line(t: &Vec<char>) -> (r: bool)
    ensures
        r == is_overwrite_marker(t@),
{
    contains_str(t, "would be overwritten") || contains_str(t, "ser\u{ed}an sobrescritos")
        || contains_str(t, "ser\u{e1}n sobrescritos") || contains_str(t, "CONFLICT")
}

fn list_end_line(t: &Vec<char>) -> (r: bool)
    ensures
        r == is_list_end(t@),
{
    starts_with_str(t, "Please") || starts_with_str(t, "Por favor") || contains_str(t, "Aborting")
        || contains_str(t, "Abortando")
}

/// The files listed between a marker line ("would be overwritten",
/// "CONFLICT") and a closing line ("Please commit ...", "Aborting").
pub fn extract_conflicting_files(stderr: &str) -> (r: Vec<String>)
    ensures
        texts(r@) == conflicting_files_of(stderr@),
{
    let s = chars_of(stderr);
    let ranges = line_ranges(&s);
    let ghost ls = text_lines(s@);
    let mut files: Vec<String> = Vec::new();
    let mut listing = false;
    let mut stop = false;
    let mut i: usize = 0;
    assert(ls.skip(0) =~= ls);
    assert(texts(files@) =~= seq![]);
    assert(seq![] + listed_files(ls, false) =~= listed_files(ls, false));
    while i < ranges.len() && !stop
        invariant
            s@ == stderr@,
            ls == text_lines(s@),
            ranges@.len() == ls.len(),
            forall|k: int|
                0 <= k < ranges@.len() ==> #[trigger] ranges@[k].0 <= ranges@[k].1 <= s@.len(),
            forall|k: int|
                0 <= k < ranges@.len() ==> s@.subrange(ranges@[k].0 as int, ranges@[k].1 as int)
                    == #[trigger] ls[k],
            i <= ranges@.len(),
            stop ==> texts(files@) == listed_files(ls, false),
            !stop ==> texts(files@) + listed_files(ls.skip(i as int), listing) == listed_files(
                ls,
                false,
            ),
        decreases ranges@.len() - i,
    {
        let (lo, hi) = ranges[i];
        assert(s@.subrange(lo as int, hi as int) == ls[i as int]);
        let (a, b) = trim_range(&s, lo, hi);
        let t = slice_chars(&s, a, b);
        let ghost rest = ls.skip(i as int);
        assert(rest.drop_first() =~= ls.skip(i + 1));
        assert(rest[0] == ls[i as int]);
        assert(t@ == trimmed(rest[0]));
        if overwrite_marker_line(&t) {
            listing = true;
        } else if list_end_line(&t) {
            assert(texts(files@) + seq![] =~= texts(files@));
            stop = true;
        } else if listing && t.len() > 0 && !starts_with_str(&t, "error") {
            let ghost before = files@;
            let f = string_of(&t);
            files.push(f);
            proof {
                lemma_texts_push(before, f);
                assert(texts(before).push(t@) + listed_files(ls.skip(i + 1), listing) =~= texts(
                    before,
                ) + (seq![t@] + listed_files(ls.skip(i + 1), listing)));
            }
        }
        i += 1;
    }
    if !stop {
        assert(ls.skip(i as int) =~= seq![]);
        assert(texts(files@) + seq![] =~= texts(files@));
    }
    files
}

// ---------------------------------------------------------------------------
// Credential prompts
// ---------------------------------------------------------------------------

/// The text between the first two single quotes of `s`.
pub open spec fn quoted_of(s: Seq<char>) -> Option<Seq<char>> {
    match position(s, "'"@) {
        None => None,
        Some(a) => {
            let rest = s.skip(a + 1);
            match position(rest, "'"@) {
                None => None,
                Some(b) => Some(rest.take(b)),
            }
        },
    }
}

/// The credential prompt in an output, given the output lower-cased.
pub open spec fn credential_of(out: Seq<char>, low: Seq<char>) -> Option<CredentialView> {
    if has_text(low, "username for"@) || has_text(low, "usuario para"@) {
        Some(
            CredentialView {
                kind: CredentialKind::Username,
                prompt: trimmed(out),
                host: quoted_of(out),
            },
        )
    } else if has_text(low, "password for"@) || has_text(low, "contrase\u{f1}a para"@) {
        Some(
            CredentialView {
                kind: CredentialKind::Password,
                prompt: trimmed(out),
                host: quoted_of(out),
            },
        )
    } else if has_text(low, "enter passphrase"@) || has_text(low, "introduzca la contrase\u{f1}a"@) {
        Some(CredentialView { kind: CredentialKind::Passphrase, prompt: trimmed(out), host: None })
    } else {
        None
    }
}

pub open spec fn credential_view(o: Option<CredentialRequest>) -> Option<CredentialView> {
    match o {
        Some(c) => Some(c@),
        None => None,
    }
}

/// The text between the first two single quotes of `s`, if there are two.
pub fn quoted_text(s: &Vec<char>) -> (r: Option<String>)
    ensures
        opt_text(r) == quoted_of(s@),
{
    proof {
        reveal_strlit("'");
    }
    match find_str(s, "'") {
        None => None,
        Some(a) => {
            proof {
                reveal_strlit("'");
            }
            let n = s.len();
            assert(a + 1 <= n);
            let rest = slice_chars(s, a + 1, n);
            assert(rest@ =~= s@.skip(a + 1));
            match find_str(&rest, "'") {
                None => None,
                Some(b) => {
                    let h = string_of(&slice_chars(&rest, 0, b));
                    assert(rest@.subrange(0, b as int) =~= rest@.take(b as int));
                    Some(h)
                },
            }
        },
    }
}

/// The credential prompt in `output`, given `lowered`, the output lower-cased.
pub fn credential_request_of(output: &str, lowered: &str) -> (r: Option<CredentialRequest>)
    ensures
        credential_view(r) == credential_of(output@, lowered@),
{
    let l = chars_of(lowered);
    let o = chars_of(output);
    if contains_str(&l, "username for") || contains_str(&l, "usuario para") {
        Some(
            CredentialRequest {
                credential_type: CredentialKind::Username,
                prompt: trim_text(output),
                host: quoted_text(&o),
            },
        )
    } else if contains_str(&l, "password for") || contains_str(&l, "contrase\u{f1}a para") {
        Some(
            CredentialRequest {
                credential_type: CredentialKind::Password,
                prompt: trim_text(output),
                host: quoted_text(&o),
            },
        )
    } else if contains_str(&l, "enter passphrase") || contains_str(
        &l,
        "introduzca la contrase\u{f1}a",
    ) {
        Some(
            CredentialRequest {
                credential_type: CredentialKind::Passphrase,
                prompt: trim_text(output),
                host: None,
            },
        )
    } else {
        None
    }
}

/// The credential prompt in `output`, its phrases matched case-insensitively.
pub fn parse_credential_request(output: &str) -> (r: Option<CredentialRequest>)
    ensures
        credential_view(r) == credential_of(output@, lower_of(output@)),
{
    let lowered = lowercase(output);
    credential_request_of(output, lowered.as_str())
}

} // verus!

verus! {

// ---------------------------------------------------------------------------
// SSH host verification
// ---------------------------------------------------------------------------

/// The host named in "host '<name> (<address>)'": the quoted text cut at its
/// first space.
pub open spec fn host_of(e: Seq<char>) -> Option<Seq<char>> {
    match position(e, "host '"@) {
        None => None,
        Some(a) => {
            let after = e.skip(a + 6);
            match position(after, "'"@) {
                None => None,
                Some(b) => {
                    let part = after.take(b);
                    match position(part, " "@) {
                        Some(c) => Some(part.take(c)),
                        None => Some(part),
                    }
                },
            }
        },
    }
}

/// The first of `ls` that holds `p`.
pub open spec fn line_with(ls: Seq<Seq<char>>, p: Seq<char>) -> Option<Seq<char>>
    decreases ls.len(),
{
    if ls.len() == 0 {
        None
    } else if has_text(ls[0], p) {
        Some(ls[0])
    } else {
        line_with(ls.drop_first(), p)
    }
}

/// The first word that starts with "SHA256:" or "MD5:", without trailing
/// dots; empty when there is none.
pub open spec fn fingerprint_in(ws: Seq<Seq<char>>) -> Seq<char>
    decreases ws.len(),
{
    if ws.len() == 0 {
        seq![]
    } else if begins_with(ws[0], "SHA256:"@) || begins_with(ws[0], "MD5:"@) {
        strip_trailing(ws[0], '.')
    } else {
        fingerprint_in(ws.drop_first())
    }
}

/// Key type and fingerprint from the first line that mentions a key
/// fingerprint, when that line has at least four words.
pub open spec fn key_of(e: Seq<char>) -> (Seq<char>, Seq<char>) {
    match line_with(text_lines(e), "key fingerprint"@) {
        Some(l) => if words(l).len() >= 4 {
            (words(l)[0], fingerprint_in(words(l)))
        } else {
            (seq![], seq![])
        },
        None => (seq![], seq![]),
    }
}

/// The host verification an SSH prompt in standard error asks for.
pub open spec fn ssh_verification_of(e: Seq<char>) -> Option<SshHostView> {
    if !(has_text(e, "authenticity of host"@) && has_text(e, "can't be established"@)) {
        None
    } else {
        match host_of(e) {
            None => None,
            Some(h) => {
                let (k, f) = key_of(e);
                if h.len() > 0 && f.len() > 0 {
                    Some(SshHostView { host: h, key_type: k, fingerprint: f })
                } else {
                    None
                }
            },
        }
    }
}

pub open spec fn ssh_view(o: Option<SshHostVerification>) -> Option<SshHostView> {
    match o {
        Some(v) => Some(v@),
        None => None,
    }
}

fn host_in(s: &Vec<char>) -> (r: Option<Vec<char>>)
    ensures
        match r {
            Some(h) => host_of(s@) == Some(h@),
            None => host_of(s@) is None,
        },
{
    proof {
        reveal_strlit("host '");
        reveal_strlit("'");
        reveal_strlit(" ");
    }
    let n = s.len();
    match find_str(s, "host '") {
        None => None,
        Some(a) => {
            assert(a + 6 <= n);
            let after = slice_chars(s, a + 6, n);
            assert(after@ =~= s@.skip(a + 6));
            match find_str(&after, "'") {
                None => None,
                Some(b) => {
                    let part = slice_chars(&after, 0, b);
                    assert(part@ =~= after@.take(b as int));
                    match find_str(&part, " ") {
                        Some(c) => {
                            let h = slice_chars(&part, 0, c);
                            assert(h@ =~= part@.take(c as int));
                            Some(h)
                        },
                        None => Some(part),
                    }
                },
            }
        },
    }
}

fn key_line(s: &Vec<char>) -> (r: Option<Vec<char>>)
    ensures
        match r {
            Some(l) => line_with(text_lines(s@), "key fingerprint"@) == Some(l@),
            None => line_with(text_lines(s@), "key fingerprint"@) is None,
        },
{
    let ranges = line_ranges(s);
    let ghost ls = text_lines(s@);
    let mut i: usize = 0;
    assert(ls.skip(0) =~= ls);
    while i < ranges.len()
        invariant
            ls == text_lines(s@),
            ranges@.len() == ls.len(),
            forall|k: int|
                0 <= k < ranges@.len() ==> #[trigger] ranges@[k].0 <= ranges@[k].1 <= s@.len(),
            forall|k: int|
                0 <= k < ranges@.len() ==> s@.subrange(ranges@[k].0 as int, ranges@[k].1 as int)
                    == #[trigger] ls[k],
            i <= ranges@.len(),
            line_with(ls, "key fingerprint"@) == line_with(ls.skip(i as int), "key fingerprint"@),
        decreases ranges@.len() - i,
    {
        let (lo, hi) = ranges[i];
        let l = slice_chars(s, lo, hi);
        assert(l@ == ls[i as int]);
        assert(ls.skip(i as int).drop_first() =~= ls.skip(i + 1));
        if contains_str(&l, "key fingerprint") {
            return Some(l);
        }
        i += 1;
    }
    None
}

fn fingerprint_word(l: &Vec<char>, ws: &Vec<(usize, usize)>) -> (r: Vec<char>)
    requires
        ws@.len() == words(l@).len(),
        forall|k: int| 0 <= k < ws@.len() ==> #[trigger] ws@[k].0 <= ws@[k].1 <= l@.len(),
        forall|k: int|
            0 <= k < ws@.len() ==> l@.subrange(ws@[k].0 as int, ws@[k].1 as int)
                == #[trigger] words(l@)[k],
    ensures
        r@ == fingerprint_in(words(l@)),
{
    let ghost w = words(l@);
    let mut j: usize = 0;
    assert(w.skip(0) =~= w);
    while j < ws.len()
        invariant
            w == words(l@),
            ws@.len() == w.len(),
            forall|k: int| 0 <= k < ws@.len() ==> #[trigger] ws@[k].0 <= ws@[k].1 <= l@.len(),
            forall|k: int|
                0 <= k < ws@.len() ==> l@.subrange(ws@[k].0 as int, ws@[k].1 as int)
                    == #[trigger] w[k],
            j <= ws@.len(),
            fingerprint_in(w) == fingerprint_in(w.skip(j as int)),
        decreases ws@.len() - j,
    {
        let (a, b) = ws[j];
        let p = slice_chars(l, a, b);
        assert(p@ == w[j as int]);
        assert(w.skip(j as int).drop_first() =~= w.skip(j + 1));
        if starts_with_str(&p, "SHA256:") || starts_with_str(&p, "MD5:") {
            return strip_trailing_chars(&p, '.');
        }
        j += 1;
    }
    Vec::new()
}

/// The host, key type and fingerprint of an SSH prompt to accept an unknown
/// host, as in "The authenticity of host 'h (1.2.3.4)' can't be established."
/// followed by "ED25519 key fingerprint is SHA256:...".
pub fn parse_ssh_host_verification(stderr: &str) -> (r: Option<SshHostVerification>)
    ensures
        ssh_view(r) == ssh_verification_of(stderr@),
{
    let s = chars_of(stderr);
    if !(contains_str(&s, "authenticity of host") && contains_str(&s, "can't be established")) {
        return None;
    }
    let host = match host_in(&s) {
        Some(h) => h,
        None => return None,
    };
    let mut key_type: Vec<char> = Vec::new();
    let mut fingerprint: Vec<char> = Vec::new();
    if let Some(l) = key_line(&s) {
        let ws = word_ranges(&l, 0, l.len());
        assert(l@.subrange(0, l@.len() as int) =~= l@);
        if ws.len() >= 4 {
            let (a, b) = ws[0];
            key_type = slice_chars(&l, a, b);
            fingerprint = fingerprint_word(&l, &ws);
        }
    }
    assert(key_of(s@) == (key_type@, fingerprint@));
    if host.len() > 0 && fingerprint.len() > 0 {
        Some(
            SshHostVerification {
                host: string_of(&host),
                key_type: string_of(&key_type),
                fingerprint: string_of(&fingerprint),
            },
        )
    } else {
        None
    }
}

} // verus!

verus! {

// ---------------------------------------------------------------------------
// Outcomes
// ---------------------------------------------------------------------------

pub open spec fn success_view(message: Seq<char>) -> OperationView {
    OperationView {
        success: true,
        message,
        ssh: None,
        credential: None,
        error_type: None,
        files: None,
    }
}

/// Standard output and standard error joined by a newline.
pub open spec fn combined_output(stdout: Seq<char>, stderr: Seq<char>) -> Seq<char> {
    stdout + "\n"@ + stderr
}

/// The outcome of a failed invocation: a host verification prompt first,
/// then a credential prompt, then the error tag of standard error, with the
/// files a checkout would overwrite.
pub open spec fn failure_view(stderr: Seq<char>, stdout: Seq<char>) -> OperationView {
    match ssh_verification_of(stderr) {
        Some(v) => OperationView {
            success: false,
            message: "SSH host verification required"@,
            ssh: Some(v),
            credential: None,
            error_type: Some(ErrorKind::SshHostVerification),
            files: None,
        },
        None => {
            let comb = combined_output(stdout, stderr);
            match credential_of(comb, lower_of(comb)) {
                Some(c) => OperationView {
                    success: false,
                    message: c.prompt,
                    ssh: None,
                    credential: Some(c),
                    error_type: Some(ErrorKind::CredentialRequired),
                    files: None,
                },
                None => {
                    let k = error_kind_of(lower_of(stderr));
                    let f = conflicting_files_of(stderr);
                    OperationView {
                        success: false,
                        message: trimmed(stderr),
                        ssh: None,
                        credential: None,
                        error_type: k,
                        files: if k == Some(ErrorKind::CheckoutWouldOverwrite) && f.len() > 0 {
                            Some(f)
                        } else {
                            None
                        },
                    }
                },
            }
        },
    }
}

/// A successful outcome with `message`.
pub fn create_success_result(message: String) -> (r: GitOperationResult)
    ensures
        r@ == success_view(message@),
        r@.well_formed(),
{
    GitOperationResult {
        success: true,
        message,
        requires_ssh_verification: None,
        requires_credential: None,
        error_type: None,
        conflicting_files: None,
    }
}

/// The outcome of an invocation that exited with failure.
pub fn create_error_result(stderr: &str, stdout: &str) -> (r: GitOperationResult)
    ensures
        r@ == failure_view(stderr@, stdout@),
        r@.well_formed(),
{
    if let Some(v) = parse_ssh_host_verification(stderr) {
        return GitOperationResult {
            success: false,
            message: String::from_str("SSH host verification required"),
            requires_ssh_verification: Some(v),
            requires_credential: None,
            error_type: Some(ErrorKind::SshHostVerification),
            conflicting_files: None,
        };
    }
    let mut combined = String::from_str(stdout);
    combined.append("\n");
    combined.append(stderr);
    if let Some(c) = parse_credential_request(combined.as_str()) {
        let message = c.prompt.clone();
        assert(message@ == c.prompt@);
        return GitOperationResult {
            success: false,
            message,
            requires_ssh_verification: None,
            requires_credential: Some(c),
            error_type: Some(ErrorKind::CredentialRequired),
            conflicting_files: None,
        };
    }
    let error_type = detect_error_type(stderr);
    let conflicting_files = match error_type {
        Some(ErrorKind::CheckoutWouldOverwrite) => {
            let files = extract_conflicting_files(stderr);
            if files.len() == 0 {
                None
            } else {
                Some(files)
            }
        },
        _ => None,
    };
    GitOperationResult {
        success: false,
        message: trim_text(stderr),
        requires_ssh_verification: None,
        requires_credential: None,
        error_type,
        conflicting_files,
    }
}

/// The network operations whose output is classified.
#[derive(Clone, Copy, Debug, PartialEq, Eq, Structural)]
pub enum NetworkOp {
    Pull,
    Push,
    Fetch,
}

/// The message of a successful run: "up to date" idioms of any recognised
/// language are normalised, other output is passed on trimmed.
pub open spec fn success_message(op: NetworkOp, stdout: Seq<char>, stderr: Seq<char>) -> Seq<char> {
    match op {
        NetworkOp::Pull => if has_text(stdout, "Already up to date"@) || has_text(
            stdout,
            "Ya est\u{e1} actualizado"@,
        ) {
            "Already up to date"@
        } else {
            trimmed(stdout)
        },
        NetworkOp::Push => if has_text(stderr, "Everything up-to-date"@) || has_text(
            stderr,
            "Todo actualizado"@,
        ) {
            "Everything up-to-date"@
        } else if stdout.len() == 0 && stderr.len() == 0 {
            "Push completed successfully"@
        } else {
            trimmed(stdout + stderr)
        },
        NetworkOp::Fetch => if stdout.len() == 0 && stderr.len() == 0 {
            "Fetch completed"@
        } else {
            trimmed(stdout + stderr)
        },
    }
}

/// The outcome of a run of `op`: a host verification or credential prompt
/// wins over the exit status; otherwise success or the classified failure.
pub open spec fn classify_view(
    op: NetworkOp,
    succeeded: bool,
    stdout: Seq<char>,
    stderr: Seq<char>,
) -> OperationView {
    let comb = combined_output(stdout, stderr);
    if succeeded && ssh_verification_of(stderr) is None && credential_of(comb, lower_of(comb)) is None {
        success_view(success_message(op, stdout, stderr))
    } else {
        failure_view(stderr, stdout)
    }
}

fn success_message_of(op: NetworkOp, stdout: &str, stderr: &str) -> (r: String)
    ensures
        r@ == success_message(op, stdout@, stderr@),
{
    let out = chars_of(stdout);
    let err = chars_of(stderr);
    let mut both = String::from_str(stdout);
    both.append(stderr);
    match op {
        NetworkOp::Pull => if contains_str(&out, "Already up to date") || contains_str(
            &out,
            "Ya est\u{e1} actualizado",
        ) {
            String::from_str("Already up to date")
        } else {
            trim_text(stdout)
        },
        NetworkOp::Push => if contains_str(&err, "Everything up-to-date") || contains_str(
            &err,
            "Todo actualizado",
        ) {
            String::from_str("Everything up-to-date")
        } else if out.len() == 0 && err.len() == 0 {
            String::from_str("Push completed successfully")
        } else {
            trim_text(both.as_str())
        },
        NetworkOp::Fetch => if out.len() == 0 && err.len() == 0 {
            String::from_str("Fetch completed")
        } else {
            trim_text(both.as_str())
        },
    }
}

/// Classifies one run of a network operation from its exit status and output.
pub fn classify(op: NetworkOp, succeeded: bool, stdout: &str, stderr: &str) -> (r: GitOperationResult)
    ensures
        r@ == classify_view(op, succeeded, stdout@, stderr@),
        r@.well_formed(),
{
    if succeeded && parse_ssh_host_verification(stderr).is_none() {
        let mut combined = String::from_str(stdout);
        combined.append("\n");
        combined.append(stderr);
        if parse_credential_request(combined.as_str()).is_none() {
            return create_success_result(success_message_of(op, stdout, stderr));
        }
    }
    create_error_result(stderr, stdout)
}

/// A failed outcome with `message` and tag `kind`.
pub open spec fn tagged_failure(message: Seq<char>, kind: ErrorKind) -> OperationView {
    OperationView {
        success: false,
        message,
        ssh: None,
        credential: None,
        error_type: Some(kind),
        files: None,
    }
}

/// A failed outcome with `message` and tag `kind`.
pub fn tagged_failure_result(message: String, kind: ErrorKind) -> (r: GitOperationResult)
    ensures
        r@ == tagged_failure(message@, kind),
        r@.well_formed(),
{
    GitOperationResult {
        success: false,
        message,
        requires_ssh_verification: None,
        requires_credential: None,
        error_type: Some(kind),
        conflicting_files: None,
    }
}

/// Every outcome the classifier gives is well formed: a success carries
/// nothing but its message, and a failure asks for at most one of host
/// verification and credentials.
pub proof fn outcomes_are_well_formed(
    op: NetworkOp,
    succeeded: bool,
    stdout: Seq<char>,
    stderr: Seq<char>,
    message: Seq<char>,
    kind: ErrorKind,
)
    ensures
        classify_view(op, succeeded, stdout, stderr).well_formed(),
        failure_view(stderr, stdout).well_formed(),
        success_view(message).well_formed(),
        tagged_failure(message, kind).well_formed(),
{
}

} // verus!
