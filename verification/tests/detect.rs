use gh_ship::detect::{base_branch, from_ci, git_dir_pointer, head_branch, Origin};

fn env(pairs: &[(&str, &str)]) -> Vec<(String, String)> {
    pairs.iter().map(|(k, v)| (k.to_string(), v.to_string())).collect()
}

#[test]
fn ignores_the_environment_outside_actions() {
    assert_eq!(from_ci(&env(&[("GITHUB_REF", "refs/heads/main")])), None);
}

#[test]
fn reads_the_branch_of_a_push() {
    let e = env(&[
        ("GITHUB_ACTIONS", "true"),
        ("GITHUB_REF", "refs/heads/release/1.x"),
        ("GITHUB_REF_NAME", "release/1.x"),
    ]);
    assert_eq!(from_ci(&e), Some("release/1.x".into()));
}

#[test]
fn falls_back_to_stripping_the_ref() {
    let e = env(&[("GITHUB_ACTIONS", "true"), ("GITHUB_REF", "refs/heads/main")]);
    assert_eq!(from_ci(&e), Some("main".into()));
}

#[test]
fn a_pull_request_uses_the_branch_it_targets() {
    let e = env(&[
        ("GITHUB_ACTIONS", "true"),
        ("GITHUB_REF", "refs/pull/7/merge"),
        ("GITHUB_BASE_REF", "release/1.x"),
        ("GITHUB_HEAD_REF", "feature/whatever"),
    ]);
    assert_eq!(from_ci(&e), Some("release/1.x".into()));
}

#[test]
fn a_tag_names_no_branch() {
    let e = env(&[
        ("GITHUB_ACTIONS", "true"),
        ("GITHUB_REF", "refs/tags/v1.0.0"),
        ("GITHUB_REF_NAME", "v1.0.0"),
    ]);
    assert_eq!(from_ci(&e), None);
}

#[test]
fn a_merge_ref_without_a_base_names_no_branch() {
    let e = env(&[("GITHUB_ACTIONS", "true"), ("GITHUB_REF", "refs/pull/7/merge")]);
    assert_eq!(from_ci(&e), None);
}

#[test]
fn base_ref_wins_over_ref_name() {
    let e = env(&[
        ("GITHUB_ACTIONS", "true"),
        ("GITHUB_REF", "refs/heads/main"),
        ("GITHUB_REF_NAME", "main"),
        ("GITHUB_BASE_REF", "release/1.x"),
    ]);
    assert_eq!(from_ci(&e), Some("release/1.x".into()));
}

#[test]
fn the_flag_wins() {
    let e = env(&[("GITHUB_ACTIONS", "true"), ("GITHUB_REF", "refs/heads/main")]);
    let d = base_branch(Some("release/2.x"), &e, None).unwrap();
    assert_eq!(d.branch, "release/2.x");
    assert_eq!(d.origin, Origin::Flag);
}

#[test]
fn ci_beats_the_checkout() {
    let e = env(&[("GITHUB_ACTIONS", "true"), ("GITHUB_REF", "refs/heads/from-ci")]);
    let d = base_branch(None, &e, head_branch("ref: refs/heads/local\n")).unwrap();
    assert_eq!(d.branch, "from-ci");
    assert_eq!(d.origin, Origin::Ci);
}

#[test]
fn the_checkout_is_the_last_resort() {
    let d = base_branch(None, &env(&[]), head_branch("ref: refs/heads/local\n")).unwrap();
    assert_eq!(d.branch, "local");
    assert_eq!(d.origin, Origin::Git);
}

#[test]
fn a_blank_flag_is_not_an_answer() {
    assert!(base_branch(Some("  "), &env(&[]), None).is_none());
}

#[test]
fn nothing_anywhere_is_not_an_answer() {
    assert!(base_branch(None, &env(&[]), None).is_none());
}

#[test]
fn an_empty_variable_counts_as_unset_and_the_last_setting_wins() {
    let e = env(&[
        ("GITHUB_ACTIONS", "true"),
        ("GITHUB_BASE_REF", ""),
        ("GITHUB_REF", "refs/heads/old"),
        ("GITHUB_REF", "refs/heads/new"),
    ]);
    assert_eq!(from_ci(&e), Some("new".into()));
}

#[test]
fn reads_the_checked_out_branch() {
    assert_eq!(head_branch("ref: refs/heads/release/1.x\n"), Some("release/1.x".into()));
    assert_eq!(head_branch("9fceb02c0b1f7e3f4a2d5c6b8a1e0d3f5c7b9a2e\n"), None);
    assert_eq!(head_branch("ref: refs/heads/\n"), None);
}

#[test]
fn reads_a_worktree_pointer() {
    assert_eq!(git_dir_pointer("gitdir: /elsewhere/.git/worktrees/x\n"), Some("/elsewhere/.git/worktrees/x".into()));
    assert_eq!(git_dir_pointer("nonsense"), None);
}

#[test]
fn the_flag_wins_then_ci_then_the_checkout() {
    let e = env(&[("GITHUB_ACTIONS", "true"), ("GITHUB_REF", "refs/heads/from-ci")]);
    let d = base_branch(Some(" release/2.x "), &e, Some("local".into())).unwrap();
    assert_eq!(d.branch, "release/2.x");
    assert_eq!(d.origin, Origin::Flag);
    let d = base_branch(None, &e, Some("local".into())).unwrap();
    assert_eq!((d.branch.as_str(), d.origin), ("from-ci", Origin::Ci));
    let d = base_branch(Some("  "), &[], Some("local".into())).unwrap();
    assert_eq!((d.branch.as_str(), d.origin), ("local", Origin::Git));
    assert!(base_branch(None, &[], None).is_none());
    assert_eq!(Origin::Default.describe(), "the repository default");
}
