use gh_ship::artifact::Artifact;
use gh_ship::commands::init::{ask_required, partition_conforming, publish_candidates, Ask};
use gh_ship::commands::status::{release_lookup, release_published, run_listing};
use gh_ship::gh::cli::GhError;
use gh_ship::gh::repo::{after_open_lookup, label_to_create, open_lookup_call, PrLookup, PR_FIELDS};
use gh_ship::gh::workflow::{from_document, Workflow, WorkflowRef, Yaml};

fn failed(stderr: &str) -> Result<String, GhError> {
    Err(GhError::Failed { args: "x".into(), stderr: stderr.into(), help: None })
}

fn s(x: &str) -> Yaml {
    Yaml::Str(x.into())
}

fn usable(path: &str) -> Workflow {
    let inputs = Yaml::Mapping(vec![(
        s("inputs"),
        Yaml::Mapping(vec![(s("ship_id"), Yaml::Mapping(vec![(s("type"), s("string"))]))]),
    )]);
    from_document(
        path,
        None,
        Some("release (ship:${{ inputs.ship_id }})".into()),
        &Some(Yaml::Mapping(vec![(s("workflow_dispatch"), inputs)])),
    )
}

fn unusable(path: &str) -> Workflow {
    from_document(path, None, None, &Some(s("push")))
}

#[test]
fn open_pull_requests_are_looked_up_first() {
    let call = open_lookup_call("release/next", "main");
    assert_eq!(
        call.args,
        vec!["pr", "list", "--head", "release/next", "--base", "main", "--state", "open", "--limit", "1", "--json", PR_FIELDS]
    );
    assert!(call.scoped);
}

#[test]
fn an_open_pull_request_ends_the_lookup() {
    match after_open_lookup("release/next", "main", Ok(r#"[{"number":7}]"#.into()), "pr list") {
        PrLookup::Done(Ok(Some(pr))) => assert_eq!(pr.number, 7),
        other => panic!("{other:?}"),
    }
}

#[test]
fn without_an_open_pull_request_any_state_is_asked_for() {
    match after_open_lookup("release/next", "main", Ok("[]".into()), "pr list") {
        PrLookup::AskAnyState(call) => assert_eq!(call.args[7], "all"),
        other => panic!("{other:?}"),
    }
}

#[test]
fn a_failed_open_lookup_is_returned_at_once() {
    assert!(matches!(
        after_open_lookup("release/next", "main", failed("boom"), "pr list"),
        PrLookup::Done(Err(GhError::Failed { .. }))
    ));
}

#[test]
fn only_missing_labels_are_created() {
    let existing = vec!["Release".to_string()];
    assert!(label_to_create(&existing, "release").is_none(), "label names are unique regardless of case");
    let call = label_to_create(&existing, "automated").unwrap();
    assert_eq!(&call.args[..3], &["label", "create", "automated"]);
}

#[test]
fn runs_are_listed_only_on_an_existing_release_branch() {
    let w = WorkflowRef { id: "prepare.yml".into(), slug: "prepare".into() };
    assert!(run_listing(false, &w, "release/next").is_none());
    let call = run_listing(true, &w, "release/next").unwrap();
    assert!(call.args.contains(&"release/next".to_string()));
}

#[test]
fn the_release_is_looked_up_by_the_artifact_tag() {
    let a = Artifact {
        schema_version: 1,
        changed: true,
        version: Some("1.0.0".into()),
        tag: Some("v1.0.0".into()),
        release: None,
        pull_request: None,
    };
    assert_eq!(release_lookup(Some(&a)).unwrap().args, vec!["release", "view", "v1.0.0", "--json", "tagName"]);
    let untagged = Artifact { tag: None, ..a };
    assert!(release_lookup(Some(&untagged)).is_none());
    assert!(release_lookup(None).is_none());
}

#[test]
fn only_an_answered_release_lookup_reads_as_published() {
    assert!(release_published(Some(Ok("{}".into()))));
    assert!(!release_published(Some(failed("release not found"))));
    assert!(!release_published(Some(failed("HTTP 500"))));
    assert!(!release_published(None));
}

#[test]
fn conforming_workflows_are_offered_and_the_rest_explained() {
    let ws = vec![unusable(".github/workflows/ci.yml"), usable(".github/workflows/prepare.yml"), usable(".github/workflows/publish.yml")];
    let (yes, no) = partition_conforming(&ws);
    assert_eq!(yes.iter().map(|w| w.slug()).collect::<Vec<_>>(), vec!["prepare", "publish"]);
    assert_eq!(no.iter().map(|w| w.slug()).collect::<Vec<_>>(), vec!["ci"]);
}

#[test]
fn the_publish_role_never_offers_the_prepare_workflow() {
    let ws = vec![usable(".github/workflows/prepare.yml"), usable(".github/workflows/publish.yml")];
    let rest = publish_candidates(&ws, "prepare");
    assert_eq!(rest.iter().map(|w| w.slug()).collect::<Vec<_>>(), vec!["publish"]);
}

#[test]
fn with_nothing_conforming_the_prepare_workflow_is_generated() {
    assert!(matches!(ask_required("prepare-release", &[]), Ask::Generate));
    match ask_required("prepare-release", &[usable(".github/workflows/prepare.yml")]) {
        Ask::Choose(options) => assert_eq!(options.len(), 2),
        Ask::Generate => panic!("a conforming workflow is offered"),
    }
}
