use ellefuanti::git::{
    clean_git_error, git_operation_status, git_write_status, push_message, strip_git_prefix,
};

#[test]
fn a_fatal_prefix_is_dropped_from_a_git_error() {
    assert_eq!(clean_git_error("fatal: not a git repository"), "not a git repository");
    assert_eq!(clean_git_error("error: pathspec 'x' did not match"), "pathspec 'x' did not match");
}

#[test]
fn only_the_first_meaningful_line_is_shown() {
    let raw = "\nfatal: unable to access 'https://…': Could not resolve host\nhint: check your network";
    assert_eq!(clean_git_error(raw), "unable to access 'https://…': Could not resolve host");
}

#[test]
fn a_hook_rejection_is_kept_intact() {
    let raw = "error: failed to push some refs\nremote: rejected by pre-receive hook: run the linter first";
    assert_eq!(clean_git_error(raw), "failed to push some refs");
}

#[test]
fn a_message_with_no_prefix_survives_unchanged() {
    assert_eq!(clean_git_error("Everything up-to-date"), "Everything up-to-date");
}

#[test]
fn a_later_error_word_in_the_sentence_is_not_stripped() {
    assert_eq!(
        clean_git_error("fatal: the commit hook printed error: bad config"),
        "the commit hook printed error: bad config"
    );
}

#[test]
fn an_all_label_error_falls_back_to_the_raw_text() {
    assert_eq!(clean_git_error("fatal\n\nerror"), "fatal\n\nerror");
}

#[test]
fn a_label_is_dropped_whatever_its_case() {
    assert_eq!(strip_git_prefix("FATAL:   no"), "no");
    assert_eq!(strip_git_prefix("git: no"), "no");
    assert_eq!(strip_git_prefix("gitignore"), "gitignore");
    assert_eq!(strip_git_prefix("érror: no"), "érror: no");
}

#[test]
fn a_commit_is_summed_up_by_its_first_line() {
    assert_eq!(
        git_write_status(&Ok("[main 1a2b] Fix\n 1 file changed".to_string())).as_deref(),
        Some("✓ [main 1a2b] Fix  ·  ⇧⌥P to push")
    );
    assert_eq!(git_write_status(&Ok(String::new())), None);
    assert_eq!(git_write_status(&Err("fatal: no".to_string())).as_deref(), Some("no"));
}

#[test]
fn a_silent_operation_says_done() {
    assert_eq!(git_operation_status(&Ok("  ".to_string())), "Done");
    assert_eq!(git_operation_status(&Ok(" On main\n".to_string())), "On main");
    assert_eq!(git_operation_status(&Err("error: rejected".to_string())), "rejected");
    assert_eq!(push_message(" \n"), "✓ Pushed");
    assert_eq!(push_message("ok\n"), "ok");
}
