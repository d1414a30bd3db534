use gh_ship::artifact::Artifact;
use gh_ship::commands::context::ArtifactFetchError;
use gh_ship::commands::init::{render_config, InitError};
use gh_ship::commands::release::{merge_step, merge_target, publish_plan, release_tag, MergeStep, Publish, ReleaseError};
use gh_ship::commands::sign::SignError;
use gh_ship::commands::status::{next_step, PullRequestStatus};
use gh_ship::commands::validate::{check_workflow, squash_problems, SetupInvalid};
use gh_ship::gh::repo::{MergeSettings, SQUASH_MESSAGE_BLANK, SQUASH_TITLE_PR};
use gh_ship::commands::{repo_root, short_sha};
use gh_ship::gh::repo::{Commit, PullRequest};
use gh_ship::gh::workflow::{from_document, Yaml};
use gh_ship::templates::{filename, Role, TokenStrategy};

#[test]
fn repo_root_is_the_grandparent_of_a_dot_github_config() {
    assert_eq!(repo_root(".github/ship.yml"), ".");
    assert_eq!(repo_root("/src/proj/.github/ship.yml"), "/src/proj");
}

#[test]
fn repo_root_falls_back_to_cwd_for_unusual_paths() {
    assert_eq!(repo_root("ship.yml"), ".");
    assert_eq!(repo_root("/tmp/custom.yml"), ".");
}

#[test]
fn repo_root_keeps_a_leading_dot_and_the_root() {
    assert_eq!(repo_root("./app/.github/ship.yml"), "./app");
    assert_eq!(repo_root("/.github/ship.yml"), "/");
    assert_eq!(repo_root("a//b/.github/ship.yml"), "a/b");
}

#[test]
fn short_sha_abbreviates_to_seven_characters() {
    assert_eq!(short_sha("0123456789abcdef"), "0123456");
}

#[test]
fn short_sha_leaves_already_short_values_alone() {
    assert_eq!(short_sha("abc"), "abc");
    assert_eq!(short_sha(""), "");
}

fn pr_status(state: &str) -> PullRequestStatus {
    PullRequestStatus { number: 1, url: "u".into(), title: "t".into(), state: state.into(), merged_sha: None }
}

fn artifact() -> Artifact {
    Artifact {
        schema_version: 1,
        changed: true,
        version: Some("1.0.0".into()),
        tag: Some("v1.0.0".into()),
        release: None,
        pull_request: None,
    }
}

#[test]
fn suggests_prepare_when_nothing_exists() {
    assert!(next_step(false, None, None, false).contains("gh ship prepare"));
}

#[test]
fn suggests_prepare_when_the_branch_exists_but_no_pr_does() {
    let s = next_step(true, None, None, false);
    assert!(s.contains("gh ship prepare"), "{s}");
}

#[test]
fn suggests_merging_an_open_pr() {
    let s = next_step(true, Some(&pr_status("OPEN")), Some(&artifact()), false);
    assert!(s.contains("merge"), "{s}");
    assert!(s.contains("gh ship release"), "{s}");
}

#[test]
fn suggests_releasing_a_merged_pr() {
    let s = next_step(true, Some(&pr_status("MERGED")), Some(&artifact()), false);
    assert!(s.contains("gh ship release"), "{s}");
}

#[test]
fn flags_a_merged_pr_without_an_artifact() {
    let s = next_step(true, Some(&pr_status("MERGED")), None, false);
    assert!(s.contains("no artifact"), "{s}");
}

#[test]
fn recognises_a_closed_pr() {
    let s = next_step(true, Some(&pr_status("CLOSED")), None, false);
    assert!(s.contains("closed"), "{s}");
    assert!(s.contains("start again"), "{s}");
}

#[test]
fn reports_completion_once_the_release_exists() {
    let s = next_step(true, Some(&pr_status("MERGED")), Some(&artifact()), true);
    assert!(s.contains("nothing to do"), "{s}");
}

#[test]
fn the_next_step_texts_are_exact() {
    assert_eq!(next_step(false, None, None, false), "run `gh ship prepare` to start a release");
    assert_eq!(next_step(true, None, None, false), "run `gh ship prepare` to produce the Release PR");
    assert_eq!(
        next_step(true, Some(&pr_status("open")), None, false),
        "review and merge the Release PR, then run `gh ship release`"
    );
}

fn pr(state: &str, merge: Option<&str>) -> PullRequest {
    PullRequest {
        number: 42,
        url: "https://x/pull/42".into(),
        title: "Release 1.0.0".into(),
        body: String::new(),
        state: state.into(),
        merge_commit: merge.map(|oid| Commit { oid: oid.into() }),
    }
}

#[test]
fn release_checks_the_pull_request_before_acting() {
    assert!(matches!(merge_step(&pr("MERGED", Some("abc")), false), MergeStep::Merged));
    assert!(matches!(merge_step(&pr("OPEN", None), true), MergeStep::Merge));
    match merge_step(&pr("OPEN", None), false) {
        MergeStep::Refused(e) => {
            assert_eq!(e.message(), "PR #42 is still open");
            assert!(e.help().ends_with(": https://x/pull/42"));
        }
        other => panic!("{other:?}"),
    }
    match merge_step(&pr("CLOSED", None), true) {
        MergeStep::Refused(e) => assert_eq!(e.message(), "PR #42 is `CLOSED` — it was closed without merging"),
        other => panic!("{other:?}"),
    }
    assert_eq!(merge_target(&pr("MERGED", Some("abc"))).unwrap(), "abc");
    assert!(matches!(merge_target(&pr("MERGED", None)), Err(ReleaseError::NoMergeCommit { number: 42 })));
    let mut untagged = artifact();
    untagged.tag = None;
    assert!(matches!(release_tag(&untagged, 42), Err(ReleaseError::NoTag { number: 42 })));
    assert_eq!(release_tag(&artifact(), 42).unwrap(), "v1.0.0");
}

#[test]
fn publishing_follows_draft_and_workflow() {
    assert_eq!(publish_plan(true, true), Publish::RunThenUndraft);
    assert_eq!(publish_plan(true, false), Publish::WarnThenRun);
    assert_eq!(publish_plan(false, true), Publish::Undraft);
    assert_eq!(publish_plan(false, false), Publish::Nothing);
}

#[test]
fn generated_config_is_documented() {
    let yaml = render_config("prepare-release", None);
    assert!(yaml.contains("workflow_dispatch"), "{yaml}");
    assert!(yaml.contains("dry_run"), "{yaml}");
    assert!(yaml.contains("never bumps versions"), "{yaml}");
}

#[test]
fn generated_config_names_the_chosen_workflows() {
    let yaml = render_config("prepare-release", Some("publish-release"));
    assert!(yaml.starts_with("# $schema: https://noirbizarre.github.io/gh-ship/schema/config/v1.json\n"));
    assert!(yaml.contains("\nversion: 1\n"));
    assert!(yaml.contains("\nrelease_branch: release/next\n"));
    assert!(yaml.contains("  prepare: prepare-release\n  publish: publish-release\n"));
    assert!(yaml.contains("  title: \"Release {{ version }}\"\n"));
    assert!(render_config("p", None).contains("  # publish: publish-release\n"));
    assert!(yaml.ends_with("  # draft: true\n"));
}

#[test]
fn errors_say_what_happened_and_what_to_do() {
    let e = InitError::Exists { path: ".github/ship.yml".into() };
    assert_eq!(e.message(), ".github/ship.yml already exists");
    assert!(e.help().contains("--force"));
    let e = InitError::Io { verb: "write".into(), path: "x".into(), message: "denied".into() };
    assert_eq!(e.message(), "could not write x: denied");
    assert_eq!(SignError::NoRef.message(), "cannot tell which branch to sign");
    assert!(SignError::NotSigned { branch: "main".into() }.help().contains("`main` was left untouched"));
    assert_eq!(
        ArtifactFetchError::MissingFile { help: "h".into() }.message(),
        "`ship.release.json` not found in the artifact"
    );
    assert_eq!(
        ReleaseError::NoPullRequest { release_branch: "release/next".into(), base_branch: "main".into() }.message(),
        "no Release PR found for `release/next` → `main`"
    );
}

#[test]
fn a_missing_workflow_is_one_issue_with_a_suggestion() {
    assert!(check_workflow(&[], "prepare", "prepare")[0].help.as_deref().unwrap().contains("gh ship init"));
    let on = Yaml::Mapping(vec![(Yaml::Str("workflow_dispatch".into()), Yaml::Null)]);
    let w = from_document(".github/workflows/prepare-release.yml", None, None, &Some(on));
    let issues = check_workflow(&[w.clone()], "prepare-relase", "prepare");
    assert_eq!(issues.len(), 1);
    assert_eq!(issues[0].message(), "workflow `prepare-relase` (configured as `workflows.prepare`) was not found");
    assert_eq!(issues[0].help.as_deref(), Some("did you mean `prepare-release`?"));
    let issues = check_workflow(&[w.clone()], "prepare-release", "prepare");
    assert_eq!(issues.len(), 1, "the prepare workflow must declare dry_run");
    assert_eq!(issues[0].message(), "workflow `prepare-release` does not declare a `dry_run` input");
    assert_eq!(SetupInvalid { issues }.message(), "the gh-ship setup has 1 problem");
    assert!(check_workflow(&[w], "prepare-release", "publish").is_empty(), "publish needs no dry_run");
}

fn settings(allow: bool, title: &str, message: &str) -> MergeSettings {
    MergeSettings {
        allow_squash_merge: allow,
        squash_merge_commit_title: title.into(),
        squash_merge_commit_message: message.into(),
    }
}

#[test]
fn the_recommended_settings_have_nothing_to_report() {
    let s = settings(true, SQUASH_TITLE_PR, SQUASH_MESSAGE_BLANK);
    assert_eq!(squash_problems(&s), Some(Vec::new()));
}

#[test]
fn githubs_defaults_are_flagged_on_both_counts() {
    let s = settings(true, "COMMIT_OR_PR_TITLE", "COMMIT_MESSAGES");
    assert_eq!(squash_problems(&s).unwrap().len(), 2);
}

#[test]
fn the_body_source_is_flagged_on_its_own() {
    let s = settings(true, SQUASH_TITLE_PR, "PR_BODY");
    let problems = squash_problems(&s).unwrap();
    assert_eq!(problems.len(), 1);
    assert!(problems[0].contains("artifact"), "{problems:?}");
}

#[test]
fn the_title_source_is_flagged_on_its_own() {
    let s = settings(true, "COMMIT_OR_PR_TITLE", SQUASH_MESSAGE_BLANK);
    let problems = squash_problems(&s).unwrap();
    assert_eq!(problems.len(), 1);
    assert!(problems[0].contains("pull_request.title"), "{problems:?}");
}

#[test]
fn a_repository_without_squash_merging_is_left_alone() {
    let s = settings(false, "COMMIT_OR_PR_TITLE", "PR_BODY");
    assert_eq!(squash_problems(&s), None);
}

#[test]
fn unknown_values_are_not_mistaken_for_the_recommended_ones() {
    let s = settings(true, "", "");
    assert_eq!(squash_problems(&s).unwrap().len(), 2);
}

#[test]
fn generated_config_carries_the_schema_modeline() {
    let yaml = render_config("prepare-release", None);
    assert!(yaml.starts_with("# $schema: "), "{yaml}");
    assert!(yaml.contains("schema/config/v1.json"), "{yaml}");
}

#[test]
fn templates_are_written_under_fixed_names() {
    assert_eq!(filename(Role::Prepare), "prepare-release.yml");
    assert_eq!(filename(Role::Publish), "publish-release.yml");
    assert_eq!(TokenStrategy::Pat.as_str(), "pat");
    assert_eq!(Role::Publish.key(), "publish");
}
