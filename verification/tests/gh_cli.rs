use gh_ship::gh::cli::{
    after_attempt, classify, display_args, is_already_exists, is_not_found, is_read_only,
    is_retryable, is_transient, retried, retries, retry_delay, spawn_error, Attempt, GhError, Next,
};

fn strs(v: &[&str]) -> Vec<String> {
    v.iter().map(|s| s.to_string()).collect()
}

#[test]
fn classifies_auth_failures() {
    let e = classify(
        "repo view",
        "gh: To use GitHub CLI in a GitHub Actions workflow, set the GH_TOKEN environment variable. authentication required",
    );
    assert!(matches!(e, GhError::NotAuthenticated), "{e:?}");
}

#[test]
fn classifies_missing_repository() {
    let e = classify("repo view", "fatal: not a git repository (or any parent)");
    assert!(matches!(e, GhError::NoRepository), "{e:?}");
}

#[test]
fn explains_that_404_may_mean_missing_scopes() {
    let e = classify("run list", "HTTP 404: Not Found");
    let GhError::Failed { help, .. } = &e else {
        panic!("expected Failed, got {e:?}")
    };
    assert!(help.as_ref().unwrap().contains("404"), "{help:?}");
}

#[test]
fn explains_permission_failures_for_both_token_kinds() {
    let e = classify(
        "workflow run",
        "HTTP 403: Resource not accessible by integration",
    );
    let GhError::Failed { help, .. } = &e else {
        panic!("expected Failed")
    };
    let help = help.as_ref().expect("403 must carry help");
    assert!(help.contains("`repo`"), "{help}");
    assert!(help.contains("`workflow`"), "{help}");
    for permission in ["Actions", "Contents", "Pull requests", "Issues", "Metadata"] {
        assert!(
            help.contains(permission),
            "fine-grained permission `{permission}` missing from: {help}"
        );
    }
    assert!(help.contains("Actions: write"), "{help}");
}

#[test]
fn recognises_the_fine_grained_token_403_wording() {
    let e = classify(
        "workflow run",
        "HTTP 403: Resource not accessible by personal access token",
    );
    let GhError::Failed { help, .. } = &e else {
        panic!("expected Failed")
    };
    assert!(help.as_ref().unwrap().contains("Actions"), "{help:?}");
}

#[test]
fn unknown_failures_stay_generic() {
    let e = classify("repo view", "something weird happened");
    let GhError::Failed { help, stderr, .. } = &e else {
        panic!("expected Failed")
    };
    assert!(help.is_none());
    assert_eq!(stderr, "something weird happened");
}

#[test]
fn the_504_that_broke_a_release_is_retryable() {
    let stderr = "HTTP 504: We couldn't respond to your request in time. Sorry about that. \
                  Please try resubmitting your request and contact us if the problem \
                  persists. (https://api.github.com/graphql)";
    let args = strs(&[
        "pr",
        "list",
        "--head",
        "release/next",
        "--base",
        "main",
        "--state",
        "open",
        "--limit",
        "1",
        "--json",
        "number,url,title,body,state,mergeCommit",
    ]);
    assert!(is_retryable(&args, stderr));
}

#[test]
fn rate_limits_are_not_retried() {
    assert!(!is_transient("HTTP 403: API rate limit exceeded"));
}

#[test]
fn definite_failures_are_not_transient() {
    assert!(!is_transient("HTTP 404: Not Found"));
    assert!(!is_transient("HTTP 403: Resource not accessible"));
    assert!(!is_transient("something weird happened"));
}

#[test]
fn mutations_are_never_retried_however_transient_the_failure() {
    let stderr = "HTTP 502: Bad gateway";
    for args in [
        vec!["pr", "create", "--title", "x"],
        vec!["release", "create", "v1.0.0"],
        vec!["workflow", "run", "ship.yml"],
        vec!["label", "create", "release"],
        vec!["pr", "merge", "12", "--merge"],
        vec!["api", "-X", "POST", "repos/o/r/git/refs"],
        vec!["api", "repos/o/r/git/refs", "-f", "ref=x"],
    ] {
        assert!(!is_retryable(&strs(&args), stderr), "{args:?} must not be retried");
    }
}

#[test]
fn reads_are_recognised() {
    for args in [
        vec!["pr", "list", "--json", "number"],
        vec!["pr", "view", "12"],
        vec!["run", "view", "42", "--json", "status"],
        vec!["run", "download", "42"],
        vec!["release", "view", "v1.0.0"],
        vec!["repo", "view"],
        vec!["auth", "status"],
        vec!["api", "repos/o/r/git/matching-refs/tags"],
        vec!["api", "--method", "GET", "repos/o/r"],
    ] {
        assert!(is_read_only(&strs(&args)), "{args:?} must count as a read");
    }
}

#[test]
fn a_misplaced_flag_is_not_a_subcommand() {
    assert!(!is_read_only(&strs(&["pr", "--repo", "o/r", "list"])));
}

#[test]
fn unknown_shapes_fail_closed() {
    assert!(!is_read_only(&[]));
    assert!(!is_read_only(&strs(&["pr"])));
    assert!(!is_read_only(&strs(&["totally-new-command", "poke"])));
}

#[test]
fn an_exhausted_error_admits_it_was_retried() {
    let e = retried(classify("pr list", "HTTP 504: gateway timeout"), 3);
    let GhError::Failed { help, stderr, .. } = &e else {
        panic!("expected Failed, got {e:?}")
    };
    assert!(stderr.contains("504"), "the original message must survive");
    assert!(
        help.as_ref().unwrap().contains("retried 3 more times"),
        "{help:?}"
    );
}

#[test]
fn a_first_attempt_failure_is_left_alone() {
    let e = retried(classify("pr list", "something weird happened"), 0);
    let GhError::Failed { help, .. } = &e else {
        panic!("expected Failed")
    };
    assert!(help.is_none(), "{help:?}");
}

#[test]
fn display_args_appends_repo() {
    assert_eq!(
        display_args(&strs(&["run", "list"]), Some("o/r")),
        "run list --repo o/r"
    );
    assert_eq!(display_args(&strs(&["run", "list"]), None), "run list");
}

#[test]
fn a_missing_gh_binary_is_reported_clearly() {
    let e = spawn_error("repo view", true, "No such file or directory (os error 2)");
    assert!(matches!(e, GhError::NotFound), "{e:?}");
    assert_eq!(e.message(), "the GitHub CLI (`gh`) is not installed or not on PATH");
}

#[test]
fn other_spawn_failures_are_not_mistaken_for_a_missing_binary() {
    let e = spawn_error("repo view", false, "permission denied");
    let GhError::Failed { args, stderr, .. } = &e else {
        panic!("expected Failed, got {e:?}")
    };
    assert_eq!(args, "repo view");
    assert!(!stderr.is_empty());
}

#[test]
fn a_single_retry_is_singular_and_keeps_the_help() {
    let e = retried(classify("pr list", "HTTP 404: gateway"), 1);
    let GhError::Failed { help, .. } = &e else {
        panic!("expected Failed")
    };
    let help = help.clone().unwrap();
    assert!(help.ends_with("\nthis looked transient, so it was retried 1 more time before giving up"), "{help}");
    assert!(help.starts_with("the repository does not exist"), "{help}");
}

#[test]
fn not_found_and_already_exists_read_the_message() {
    let nf = classify("api", "HTTP 404: Not Found");
    assert!(is_not_found(&nf));
    assert!(!is_already_exists(&nf));
    let ae = GhError::Failed { args: "api".into(), stderr: "Reference already exists".into(), help: None };
    assert!(is_already_exists(&ae));
    assert!(!is_not_found(&GhError::NotAuthenticated));
}

#[test]
fn the_retry_loop_retries_reads_with_a_doubling_capped_backoff() {
    let args = strs(&["pr", "list"]);
    match after_attempt(&args, "pr list", 0, 3, 4, Attempt::Failed { stderr: "HTTP 502: Bad gateway".into() }) {
        Next::Retry { delay_secs, next_delay_secs } => assert_eq!((delay_secs, next_delay_secs), (4, 8)),
        Next::Done(r) => panic!("expected a retry, got {r:?}"),
    }
    match after_attempt(&args, "pr list", 1, 3, 8, Attempt::Failed { stderr: "HTTP 502: Bad gateway".into() }) {
        Next::Retry { next_delay_secs, .. } => assert_eq!(next_delay_secs, 8),
        Next::Done(r) => panic!("expected a retry, got {r:?}"),
    }
    match after_attempt(&args, "pr list", 3, 3, 8, Attempt::Failed { stderr: "HTTP 502: Bad gateway".into() }) {
        Next::Done(Err(GhError::Failed { help, .. })) => assert!(help.unwrap().contains("retried 3 more times")),
        other => panic!("expected exhaustion, got {other:?}"),
    }
    match after_attempt(&strs(&["pr", "create"]), "pr create", 0, 3, 1, Attempt::Failed { stderr: "HTTP 502: Bad gateway".into() }) {
        Next::Done(Err(_)) => {},
        other => panic!("writes are never retried, got {other:?}"),
    }
    match after_attempt(&args, "pr list", 0, 3, 1, Attempt::Succeeded { stdout: Ok("[]".into()) }) {
        Next::Done(Ok(s)) => assert_eq!(s, "[]"),
        other => panic!("expected success, got {other:?}"),
    }
}

#[test]
fn retry_settings_fall_back_to_their_defaults() {
    assert_eq!(retries(Some("0")), 0);
    assert_eq!(retries(Some("many")), 3);
    assert_eq!(retries(None), 3);
    assert_eq!(retry_delay(Some("5")), 5);
    assert_eq!(retry_delay(Some("-1")), 1);
}
