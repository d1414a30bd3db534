use gh_ship::branches::Line;
use gh_ship::artifact::{Artifact, Release};
use gh_ship::commands::context::{
    base_of_line, download_failed, legacy_ship_id_warning, missing_file, resolve_line, run_note, search_note,
    ArtifactFetchError, RunNote,
};
use gh_ship::commands::prepare::{
    pending_tag, promote_call, release_in_flight, stage_branch, staging_prefix, staging_scope, upsert_plan, InFlight, Upsert, STAGING_PREFIX,
};
use gh_ship::config::{Config, PullRequestConfig, ReleaseConfig, Settings, Workflows};
use gh_ship::detect::{Detected, Origin};
use gh_ship::gh::repo::{Commit, PullRequest};
use gh_ship::gh::workflow::{from_document, sort_by_name, workflow_files, Workflow};
use gh_ship::logger::Elapsed;
use gh_ship::render::embed_artifact;

fn artifact(changed: bool, tag: Option<&str>) -> Artifact {
    Artifact {
        schema_version: 1,
        changed,
        version: Some("1.2.0".into()),
        tag: tag.map(str::to_string),
        release: Some(Release { notes: Some("notes".into()), ..Default::default() }),
        pull_request: None,
    }
}

fn pr(state: &str, body: String, merged: Option<&str>) -> PullRequest {
    PullRequest {
        number: 7,
        url: "https://x/pull/7".into(),
        title: "Release 1.2.0".into(),
        body,
        state: state.into(),
        merge_commit: merged.map(|oid| Commit { oid: oid.into() }),
    }
}

#[test]
fn a_merged_release_pr_carrying_a_tag_is_checked_before_preparing() {
    let body = embed_artifact("notes", &artifact(true, Some("v1.2.0")));
    assert_eq!(pending_tag(Some(&pr("MERGED", body.clone(), Some("abc")))).as_deref(), Some("v1.2.0"));
    assert_eq!(pending_tag(Some(&pr("OPEN", body.clone(), None))), None);
    assert_eq!(pending_tag(None), None);
    let unchanged = embed_artifact("notes", &artifact(false, Some("v1.2.0")));
    assert_eq!(pending_tag(Some(&pr("MERGED", unchanged, Some("abc")))), None);
    assert_eq!(pending_tag(Some(&pr("MERGED", "no artifact here".into(), Some("abc")))), None);
}

#[test]
fn preparing_stops_while_a_release_is_in_flight() {
    let merged = pr("MERGED", String::new(), Some("abc123"));
    assert_eq!(release_in_flight(&merged, false, "abc123"), InFlight::Unpublished);
    assert_eq!(release_in_flight(&merged, true, "abc123"), InFlight::Published);
    assert_eq!(release_in_flight(&merged, true, "def456"), InFlight::Proceed);
}

#[test]
fn the_release_pr_is_reused_reopened_or_replaced() {
    let open = pr("OPEN", String::new(), None);
    let closed = pr("CLOSED", String::new(), None);
    let merged = pr("MERGED", String::new(), Some("a"));
    assert_eq!(upsert_plan(Some(&open), true), Upsert::Update { number: 7, reopen: false });
    assert_eq!(upsert_plan(Some(&closed), true), Upsert::Update { number: 7, reopen: true });
    assert_eq!(upsert_plan(Some(&merged), true), Upsert::Open);
    assert_eq!(upsert_plan(Some(&open), false), Upsert::CloseThenOpen { number: 7 });
    assert_eq!(upsert_plan(Some(&closed), false), Upsert::Open);
    assert_eq!(upsert_plan(None, true), Upsert::Open);
}

#[test]
fn promotion_moves_or_creates_the_release_branch() {
    let moved = promote_call("o/r", "release/next", "abc", true);
    assert_eq!(moved.args[1], "repos/o/r/git/refs/heads/release/next");
    assert!(moved.args.contains(&"PATCH".to_string()));
    let created = promote_call("o/r", "release/next", "abc", false);
    assert!(created.args.contains(&"ref=refs/heads/release/next".to_string()), "{:?}", created.args);
    assert_eq!(stage_branch(None, "0a1b2c3d4e5f"), format!("{STAGING_PREFIX}0a1b2c3d4e5f"));
}

fn config(branches: &[&str], release_branch: &str) -> Config {
    let text = format!("version: 1\nbranches: {:?}\nrelease_branch: \"{release_branch}\"\nworkflows:\n  prepare: x\n", branches);
    let settings = Settings {
        version: 1,
        release_branch: release_branch.to_string(),
        branches: branches.iter().map(|b| b.to_string()).collect(),
        overrides: vec![],
        workflows: Workflows { prepare: "x".into(), publish: None },
        pull_request: PullRequestConfig::default(),
        release: ReleaseConfig::default(),
    };
    Config::from_parsed(".github/ship.yml", &text, Ok(settings)).unwrap()
}

#[test]
fn without_release_lines_detection_never_retargets() {
    let c = config(&[], "release/next");
    let on_feature = Some(Detected { branch: "feature/x".into(), origin: Origin::Git });
    let (line, origin) = resolve_line(&c, None, on_feature, "main").unwrap();
    assert_eq!((line.base.as_str(), line.release.as_str(), origin), ("main", "release/next", Origin::Default));
    let (line, origin) = resolve_line(&c, Some(" dev "), None, "main").unwrap();
    assert_eq!((line.base.as_str(), origin), ("dev", Origin::Flag));
}

#[test]
fn with_release_lines_the_detected_branch_selects_the_line() {
    let c = config(&["main", "release/*"], "next/{{ match }}");
    let ci = Some(Detected { branch: "release/1.x".into(), origin: Origin::Ci });
    let (line, origin) = resolve_line(&c, None, ci, "main").unwrap();
    assert_eq!((line.base.as_str(), line.release.as_str(), origin), ("release/1.x", "next/1.x", Origin::Ci));
    let (line, origin) = resolve_line(&c, None, None, "main").unwrap();
    assert_eq!((line.base.as_str(), origin), ("main", Origin::Default));
    assert!(resolve_line(&c, None, Some(Detected { branch: "other".into(), origin: Origin::Git }), "main").is_err());
    assert_eq!(base_of_line(true, Some("ignored"), None, "main").0, "main");
}

#[test]
fn waiting_notes_are_sparse() {
    assert_eq!(search_note(false, Elapsed::new(0, 0)).as_deref(), Some("waiting for the run to appear"));
    assert_eq!(search_note(true, Elapsed::new(15, 0)).as_deref(), Some("still waiting (15.00s)"));
    assert_eq!(search_note(true, Elapsed::new(16, 0)), None);
    assert!(matches!(run_note("queued", "in_progress", Elapsed::new(3, 0)), RunNote::Status));
    assert!(matches!(run_note("in_progress", "in_progress", Elapsed::new(90, 0)), RunNote::StillRunning(ref s) if s == "still running (1m 30s)"));
    assert!(matches!(run_note("in_progress", "in_progress", Elapsed::new(91, 0)), RunNote::Quiet));
}

#[test]
fn fetch_failures_name_the_protocol() {
    match download_failed("no artifact", "https://x/runs/1") {
        ArtifactFetchError::Download { message, help } => {
            assert_eq!(message, "no artifact");
            assert!(help.contains("`ship-release` artifact") && help.ends_with("Run: https://x/runs/1"), "{help}");
        }
        other => panic!("{other:?}"),
    }
    assert!(missing_file("u").help().unwrap().contains("The filename is part of the protocol"));
    assert!(legacy_ship_id_warning("prepare").starts_with("`prepare` still requires a `ship_id` input"));
}

fn named(path: &str, name: &str) -> Workflow {
    from_document(path, Some(name.into()), None, &None)
}

#[test]
fn discovery_keeps_yaml_files_in_order_and_sorts_by_name() {
    let files = workflow_files(&["b.yml".into(), "README.md".into(), "a.yaml".into(), ".yml".into()]);
    assert_eq!(files, vec!["a.yaml", "b.yml"]);
    let sorted = sort_by_name(vec![named("1.yml", "zeta"), named("2.yml", "alpha"), named("3.yml", "zeta"), named("4.yml", "beta")]);
    let order: Vec<&str> = sorted.iter().map(|w| w.path.as_str()).collect();
    assert_eq!(order, ["2.yml", "4.yml", "1.yml", "3.yml"], "stable for equal names");
}

#[test]
fn staging_branches_are_scoped_to_their_release_line() {
    assert_eq!(staging_prefix(Some("release/1.x")), "ship/prepare-release-1.x-");
    assert_eq!(stage_branch(Some("release/1.x"), "abc"), "ship/prepare-release-1.x-abc");
}

#[test]
fn without_release_lines_staging_branches_keep_their_old_names() {
    assert_eq!(staging_prefix(None), "ship/prepare-");
    let single = Line { base: "main".into(), release: "release/next".into(), entry: None };
    assert_eq!(staging_scope(&single), None);
    let listed = Line { base: "release/1.x".into(), release: "next/1.x".into(), entry: Some(1) };
    assert_eq!(staging_scope(&listed), Some("release/1.x"));
}
