use forky::classify::{
    classify, create_error_result, create_success_result, credential_request_of,
    detect_error_type, error_kind_of_lowered, extract_conflicting_files,
    parse_credential_request, parse_ssh_host_verification, CredentialKind, ErrorKind, NetworkOp,
};

const SSH_PROMPT: &str = "The authenticity of host 'example.com (1.2.3.4)' can't be established.\nED25519 key fingerprint is SHA256:abcd1234.";

#[test]
fn ssh_prompt_asks_for_host_verification() {
    let r = classify(NetworkOp::Pull, false, "", SSH_PROMPT);
    assert!(!r.success);
    let v = r.requires_ssh_verification.expect("verification");
    assert_eq!(v.host, "example.com");
    assert_eq!(v.key_type, "ED25519");
    assert_eq!(v.fingerprint, "SHA256:abcd1234");
    assert_eq!(r.error_type, Some(ErrorKind::SshHostVerification));
    assert_eq!(r.message, "SSH host verification required");
    assert!(r.requires_credential.is_none());
}

#[test]
fn ssh_prompt_wins_over_a_successful_exit() {
    let r = classify(NetworkOp::Fetch, true, "", SSH_PROMPT);
    assert!(!r.success);
    assert!(r.requires_ssh_verification.is_some());
}

#[test]
fn ssh_prompt_parsed_directly() {
    let v = parse_ssh_host_verification(
        "The authenticity of host 'bitbucket.org (185.166.143.49)' can't be established.\nRSA key fingerprint is MD5:12:34.\nAre you sure?",
    )
    .expect("verification");
    assert_eq!(v.host, "bitbucket.org");
    assert_eq!(v.key_type, "RSA");
    assert_eq!(v.fingerprint, "MD5:12:34");
}

#[test]
fn ssh_prompt_without_fingerprint_is_not_recognised() {
    assert!(parse_ssh_host_verification(
        "The authenticity of host 'h' can't be established."
    )
    .is_none());
    assert!(parse_ssh_host_verification("Host key verification failed.").is_none());
}

#[test]
fn authentication_failure_is_tagged() {
    let r = classify(
        NetworkOp::Push,
        false,
        "",
        "fatal: Authentication failed ... permission denied",
    );
    assert!(!r.success);
    assert_eq!(r.error_type, Some(ErrorKind::AuthenticationFailed));
    assert_eq!(r.message, "fatal: Authentication failed ... permission denied");
}

#[test]
fn already_up_to_date_is_normalised() {
    let r = classify(NetworkOp::Pull, true, "Already up to date.", "");
    assert!(r.success);
    assert_eq!(r.message, "Already up to date");
    assert!(r.error_type.is_none());
    assert!(r.requires_ssh_verification.is_none());
    assert!(r.requires_credential.is_none());
    assert!(r.conflicting_files.is_none());
}

#[test]
fn already_up_to_date_in_spanish_is_normalised() {
    let r = classify(NetworkOp::Pull, true, "Ya est\u{e1} actualizado.\n", "");
    assert_eq!(r.message, "Already up to date");
}

#[test]
fn pull_output_is_trimmed() {
    let r = classify(NetworkOp::Pull, true, "  Fast-forward\n a.txt | 1 +\n", "From x\n");
    assert!(r.success);
    assert_eq!(r.message, "Fast-forward\n a.txt | 1 +");
}

#[test]
fn push_messages() {
    let r = classify(NetworkOp::Push, true, "", "Everything up-to-date\n");
    assert_eq!(r.message, "Everything up-to-date");
    let r = classify(NetworkOp::Push, true, "", "");
    assert_eq!(r.message, "Push completed successfully");
    let r = classify(NetworkOp::Push, true, "a\n", "b\n");
    assert_eq!(r.message, "a\nb");
}

#[test]
fn fetch_messages() {
    let r = classify(NetworkOp::Fetch, true, "", "");
    assert_eq!(r.message, "Fetch completed");
    let r = classify(NetworkOp::Fetch, true, "", "From github.com:u/r\n");
    assert_eq!(r.message, "From github.com:u/r");
}

#[test]
fn credential_prompt_wins_over_a_successful_exit() {
    let r = classify(NetworkOp::Pull, true, "Username for 'https://github.com': ", "");
    assert!(!r.success);
    assert_eq!(r.error_type, Some(ErrorKind::CredentialRequired));
    let c = r.requires_credential.expect("credential");
    assert_eq!(c.credential_type, CredentialKind::Username);
    assert_eq!(c.host.as_deref(), Some("https://github.com"));
}

#[test]
fn credential_prompts() {
    let c = parse_credential_request("Username for 'https://github.com': ").unwrap();
    assert_eq!(c.credential_type, CredentialKind::Username);
    assert_eq!(c.prompt, "Username for 'https://github.com':");
    assert_eq!(c.host.as_deref(), Some("https://github.com"));
    let c = parse_credential_request("PASSWORD FOR 'https://u@h.org': ").unwrap();
    assert_eq!(c.credential_type, CredentialKind::Password);
    assert_eq!(c.host.as_deref(), Some("https://u@h.org"));
    let c = parse_credential_request("Enter passphrase for key '/home/u/.ssh/id': ").unwrap();
    assert_eq!(c.credential_type, CredentialKind::Passphrase);
    assert_eq!(c.host, None);
    let c = parse_credential_request("Contrase\u{f1}a para 'https://h': ").unwrap();
    assert_eq!(c.credential_type, CredentialKind::Password);
    let c = parse_credential_request("username for host").unwrap();
    assert_eq!(c.host, None);
    assert!(parse_credential_request("nothing to see").is_none());
    assert_eq!(CredentialKind::Passphrase.tag(), "passphrase");
}

#[test]
fn credential_from_lowered_text() {
    let c = credential_request_of("X 'h' Y", "username for").unwrap();
    assert_eq!(c.credential_type, CredentialKind::Username);
    assert_eq!(c.prompt, "X 'h' Y");
    assert_eq!(c.host.as_deref(), Some("h"));
    assert!(credential_request_of("Username for 'h'", "other").is_none());
}

#[test]
fn error_kinds() {
    assert_eq!(detect_error_type("Host key verification failed."), Some(ErrorKind::SshHostVerificationFailed));
    assert_eq!(detect_error_type("git@github.com: Permission denied (publickey)."), Some(ErrorKind::AuthenticationFailed));
    assert_eq!(detect_error_type("fatal: Could not read from remote repository."), Some(ErrorKind::RemoteAccessFailed));
    assert_eq!(detect_error_type("ssh: connect to host h port 22: Connection refused"), Some(ErrorKind::ConnectionRefused));
    assert_eq!(detect_error_type("conexi\u{f3}n rechazada"), Some(ErrorKind::ConnectionRefused));
    assert_eq!(detect_error_type("Connection timed out"), Some(ErrorKind::ConnectionTimeout));
    assert_eq!(detect_error_type("Could not resolve host: github.com"), Some(ErrorKind::HostNotFound));
    assert_eq!(
        detect_error_type("error: Your local changes would be overwritten by checkout:"),
        Some(ErrorKind::CheckoutWouldOverwrite)
    );
    assert_eq!(detect_error_type("hint: You have divergent branches"), Some(ErrorKind::DivergentBranches));
    assert_eq!(detect_error_type("fatal: not a git repository"), Some(ErrorKind::GitError));
    assert_eq!(detect_error_type("something else"), None);
    assert_eq!(detect_error_type(""), None);
    assert_eq!(ErrorKind::AuthenticationFailed.tag(), "authentication_failed");
}

#[test]
fn error_kind_from_lowered_text() {
    assert_eq!(error_kind_of_lowered("fatal: x"), Some(ErrorKind::GitError));
    assert_eq!(error_kind_of_lowered("FATAL: x"), None);
}

const CHECKOUT_REFUSAL: &str = "error: Your local changes to the following files would be overwritten by checkout:\n\tsrc/a.rs\n\tb.txt\nPlease commit your changes or stash them before you switch branches.\nAborting";

#[test]
fn conflicting_files_between_marker_and_end() {
    let files = extract_conflicting_files(CHECKOUT_REFUSAL);
    assert_eq!(files, vec!["src/a.rs".to_string(), "b.txt".to_string()]);
    assert!(extract_conflicting_files("no list here\nfile").is_empty());
    assert!(extract_conflicting_files("").is_empty());
}

#[test]
fn checkout_refusal_lists_files() {
    let r = create_error_result(CHECKOUT_REFUSAL, "");
    assert!(!r.success);
    assert_eq!(r.error_type, Some(ErrorKind::CheckoutWouldOverwrite));
    assert_eq!(r.conflicting_files, Some(vec!["src/a.rs".to_string(), "b.txt".to_string()]));
    assert_eq!(r.message, CHECKOUT_REFUSAL.trim());
}

#[test]
fn unclassified_failure_keeps_trimmed_message() {
    let r = create_error_result("  odd failure \n", "");
    assert!(!r.success);
    assert_eq!(r.message, "odd failure");
    assert_eq!(r.error_type, None);
    assert_eq!(r.conflicting_files, None);
}

#[test]
fn success_result_is_bare() {
    let r = create_success_result("done".to_string());
    assert!(r.success);
    assert_eq!(r.message, "done");
    assert!(r.error_type.is_none() && r.conflicting_files.is_none());
}

#[test]
fn tags_round_trip() {
    for k in [ErrorKind::GitError, ErrorKind::FastForwardFailed, ErrorKind::SshHostVerification] {
        assert_eq!(ErrorKind::from_tag(&k.tag()), Some(k));
    }
    assert_eq!(ErrorKind::from_tag("nope"), None);
    assert_eq!(CredentialKind::from_tag("password"), Some(CredentialKind::Password));
    assert_eq!(CredentialKind::from_tag("pin"), None);
}

#[test]
fn conflict_line_opens_the_file_list() {
    let files = extract_conflicting_files("CONFLICT (content): Merge conflict in a.txt\n\tb.txt\nAborting");
    assert_eq!(files, vec!["b.txt".to_string()]);
}
