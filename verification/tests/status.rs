use gh_ship::artifact::Artifact;
use gh_ship::commands::status::{status_lines, PullRequestStatus, RunStatus, Status};
use gh_ship::logger;
use gh_ship::style::Theme;

fn fresh() -> Status {
    Status {
        repository: "octo/widgets".into(),
        base_branch: "main".into(),
        release_branch: "release/next".into(),
        release_branch_exists: false,
        pull_request: None,
        artifact: None,
        last_run: None,
        release_exists: false,
        next: "run `gh ship prepare` to start a release".into(),
    }
}

fn artifact(changed: bool) -> Artifact {
    Artifact {
        schema_version: 1,
        changed,
        version: if changed { Some("1.4.0".into()) } else { None },
        tag: if changed { Some("v1.4.0".into()) } else { None },
        release: None,
        pull_request: None,
    }
}

#[test]
fn a_fresh_repository_reports_nothing_but_the_way_in() {
    let lines = status_lines(&fresh(), &Theme::plain());
    assert_eq!(
        lines,
        vec![
            "▶ status of octo/widgets",
            "",
            "  base branch: main",
            "  release branch: release/next (does not exist)",
            "  release pr: none",
            "  artifact: none",
            "",
            "- next: run `gh ship prepare` to start a release",
        ]
    );
}

#[test]
fn a_merged_release_pr_reports_its_commit_run_and_release() {
    let status = Status {
        release_branch_exists: true,
        pull_request: Some(PullRequestStatus {
            number: 42,
            url: "https://github.com/octo/widgets/pull/42".into(),
            title: "chore(release): 1.4.0".into(),
            state: "MERGED".into(),
            merged_sha: Some("0123456789abcdef".into()),
        }),
        artifact: Some(artifact(true)),
        last_run: Some(RunStatus {
            id: 7,
            title: "prepare".into(),
            status: "completed".into(),
            conclusion: "success".into(),
            url: "https://github.com/octo/widgets/actions/runs/7".into(),
        }),
        release_exists: true,
        next: "the release exists — nothing to do".into(),
        ..fresh()
    };
    let lines = status_lines(&status, &Theme::plain());
    assert_eq!(
        lines,
        vec![
            "▶ status of octo/widgets",
            "",
            "  base branch: main",
            "  release branch: release/next",
            "  release pr: #42 chore(release): 1.4.0 [merged]",
            "  pr: https://github.com/octo/widgets/pull/42",
            "  merged as: 0123456",
            "  version: 1.4.0\n  tag: v1.4.0",
            "  last run: completed (success)",
            "  run: https://github.com/octo/widgets/actions/runs/7",
            "  release: published",
            "",
            "- next: the release exists — nothing to do",
        ]
    );
}

#[test]
fn a_running_prepare_shows_no_conclusion_and_an_unchanged_artifact_says_so() {
    let status = Status {
        release_branch_exists: true,
        artifact: Some(artifact(false)),
        last_run: Some(RunStatus {
            id: 8,
            title: "prepare".into(),
            status: "in_progress".into(),
            conclusion: String::new(),
            url: "u".into(),
        }),
        ..fresh()
    };
    let lines = status_lines(&status, &Theme::plain());
    assert!(lines.contains(&"  artifact: nothing to release".to_string()), "{lines:?}");
    assert!(lines.contains(&"  last run: in_progress".to_string()), "{lines:?}");
}

#[test]
fn the_release_identity_falls_back_to_a_question_mark() {
    let t = Theme::plain();
    assert_eq!(logger::release_identity(&t, Some("2.0.0"), Some("v2.0.0")), "  version: 2.0.0\n  tag: v2.0.0");
    assert_eq!(logger::release_identity(&t, None, None), "  version: ?\n  tag: ?");
}
