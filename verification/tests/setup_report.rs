use gh_ship::branches::BranchError;
use gh_ship::commands::validate::{release_lines, squash_lines, workflow_line};
use gh_ship::config::{Config, PullRequestConfig, ReleaseConfig, Settings, Workflows};
use gh_ship::gh::cli::GhError;
use gh_ship::gh::repo::{merge_settings, merge_settings_call, MergeSettings, SQUASH_MESSAGE_BLANK, SQUASH_TITLE_PR};
use gh_ship::gh::workflow::{from_document, Workflow, Yaml};
use gh_ship::style::Theme;

fn config(branches: &[&str], release_branch: &str) -> Config {
    let text = format!(
        "version: 1\nbranches: {:?}\nrelease_branch: \"{release_branch}\"\nworkflows:\n  prepare: x\n",
        branches
    );
    let settings = Settings {
        version: 1,
        release_branch: release_branch.to_string(),
        branches: branches.iter().map(|b| b.to_string()).collect(),
        overrides: vec![],
        workflows: Workflows { prepare: "x".into(), publish: None },
        pull_request: PullRequestConfig::default(),
        release: ReleaseConfig::default(),
    };
    Config::from_parsed(".github/ship.yml", &text, Ok(settings)).expect("config parses")
}

fn s(x: &str) -> Yaml {
    Yaml::Str(x.into())
}

fn conforming(path: &str, name: &str) -> Workflow {
    let inputs = Yaml::Mapping(vec![(
        s("inputs"),
        Yaml::Mapping(vec![(s("dry_run"), Yaml::Mapping(vec![(s("type"), s("boolean"))]))]),
    )]);
    from_document(path, Some(name.into()), None, &Some(Yaml::Mapping(vec![(s("workflow_dispatch"), inputs)])))
}

fn settings(allow: bool, title: &str, message: &str) -> MergeSettings {
    MergeSettings {
        allow_squash_merge: allow,
        squash_merge_commit_title: title.into(),
        squash_merge_commit_message: message.into(),
    }
}

#[test]
fn without_release_lines_the_template_is_shown() {
    let c = config(&[], "release/next");
    assert_eq!(
        release_lines(&c, &Theme::plain()).unwrap(),
        vec!["  release branch: release/next"]
    );
}

#[test]
fn each_release_line_says_where_it_stages() {
    let c = config(&["main", "release/*"], "next/{{ match }}");
    assert_eq!(
        release_lines(&c, &Theme::plain()).unwrap(),
        vec![
            "  release line: main -> next/main",
            "  release line: release/* -> next/{{ match }} (per match)",
        ]
    );
}

#[test]
fn a_release_line_that_does_not_render_is_an_error() {
    let c = config(&["main"], "next/{{ match ");
    assert!(matches!(release_lines(&c, &Theme::plain()), Err(BranchError::Template(_))));
}

#[test]
fn a_satisfied_role_names_its_workflow() {
    let t = Theme::plain();
    let ws = vec![conforming(".github/workflows/prepare-release.yml", "🚢 Prepare Release")];
    assert_eq!(
        workflow_line(&ws, "prepare-release", "prepare", &t).as_deref(),
        Some("  prepare: prepare-release (🚢 Prepare Release)")
    );
    assert_eq!(workflow_line(&ws, "publish-release", "publish", &t), None);
}

#[test]
fn a_violating_workflow_gets_no_line() {
    let t = Theme::plain();
    let w = from_document(".github/workflows/ci.yml", Some("ci".into()), None, &Some(s("push")));
    assert_eq!(workflow_line(&[w], "ci", "prepare", &t), None);
}

#[test]
fn squash_settings_without_squashing_say_nothing() {
    let t = Theme::plain();
    assert!(squash_lines(&settings(false, "", ""), "octo/widgets", &t).is_empty());
}

#[test]
fn the_recommended_squash_settings_are_acknowledged() {
    let t = Theme::plain();
    assert_eq!(
        squash_lines(&settings(true, SQUASH_TITLE_PR, SQUASH_MESSAGE_BLANK), "octo/widgets", &t),
        vec!["✔ squash merges produce a clean release commit"]
    );
}

#[test]
fn bad_squash_settings_get_each_problem_and_the_fix() {
    let t = Theme::plain();
    let lines = squash_lines(&settings(true, "COMMIT_OR_PR_TITLE", "COMMIT_MESSAGES"), "octo/widgets", &t);
    assert_eq!(lines.len(), 4, "{lines:?}");
    assert_eq!(lines[0], "⚠ this repository squashes the Release PR badly");
    assert!(lines[1].contains("pull_request.title"), "{lines:?}");
    assert!(lines[2].contains("embedded artifact"), "{lines:?}");
    assert_eq!(
        lines[3],
        "  Fix it once, with admin rights:\n    gh api -X PATCH repos/octo/widgets \\\n      -f squash_merge_commit_title=PR_TITLE \\\n      -f squash_merge_commit_message=BLANK"
    );
}

#[test]
fn merge_settings_are_read_from_the_repository_document() {
    let call = merge_settings_call("octo/widgets");
    assert_eq!(call.args, vec!["api", "repos/octo/widgets"]);
    assert!(!call.scoped);

    let doc = r#"{"allow_squash_merge":true,"squash_merge_commit_title":"PR_TITLE","squash_merge_commit_message":"BLANK"}"#;
    let s = merge_settings(Ok(doc.to_string()), "gh api repos/octo/widgets").unwrap();
    assert!(s.allow_squash_merge);
    assert_eq!(s.squash_merge_commit_title, "PR_TITLE");
    assert_eq!(s.squash_merge_commit_message, "BLANK");
}

#[test]
fn unreadable_merge_settings_default_to_empty() {
    let s = merge_settings(Ok(r#"{"name":"widgets"}"#.to_string()), "gh api repos/octo/widgets").unwrap();
    assert!(!s.allow_squash_merge);
    assert_eq!(s.squash_merge_commit_title, "");
    assert_eq!(s.squash_merge_commit_message, "");
}

#[test]
fn malformed_merge_settings_are_a_decode_error() {
    let r = merge_settings(Ok(r#"{"allow_squash_merge":"yes"}"#.to_string()), "gh api repos/octo/widgets");
    assert!(matches!(r, Err(GhError::Decode { .. })), "{r:?}");
    let r = merge_settings(Ok("[]".to_string()), "gh api repos/octo/widgets");
    assert!(matches!(r, Err(GhError::Decode { .. })), "{r:?}");
}
