use std::collections::HashSet;

use gh_ship::gh::cli::GhError;
use gh_ship::gh::run::{
    appear_timeout, dispatch, dispatch_call, download_artifact_call, find_step, list, list_call,
    needs_legacy_ship_id, not_found_help, pick_new, run_timeout, snapshot, view, view_call,
    wait_step, backoff, Dispatched, Progress, Run, RunError, Search, POLL_MAX_MILLIS, POLL_MIN_MILLIS, RUN_FIELDS,
};
use gh_ship::gh::workflow::WorkflowRef;

fn run_at(id: u64, event: &str) -> Run {
    Run {
        id,
        title: "prepare-release".into(),
        status: "completed".into(),
        conclusion: "success".into(),
        url: String::new(),
        head_branch: "main".into(),
        event: event.into(),
    }
}

#[test]
fn run_status_predicates() {
    let queued = Run {
        id: 1,
        title: "t".into(),
        status: "queued".into(),
        conclusion: String::new(),
        url: String::new(),
        head_branch: "release/next".into(),
        event: "workflow_dispatch".into(),
    };
    assert!(!queued.is_finished());
    assert!(!queued.succeeded());

    let ok = Run { status: "completed".into(), conclusion: "success".into(), ..queued.clone() };
    assert!(ok.is_finished() && ok.succeeded());

    let failed = Run { status: "completed".into(), conclusion: "failure".into(), ..queued.clone() };
    assert!(failed.is_finished() && !failed.succeeded());

    let cancelled = Run { status: "completed".into(), conclusion: "cancelled".into(), ..queued };
    assert!(cancelled.is_finished() && !cancelled.succeeded());
}

#[test]
fn run_list_json_deserialises() {
    let json = r#"[{
        "databaseId": 42,
        "displayTitle": "prepare-release",
        "status": "completed",
        "conclusion": "success",
        "url": "https://github.com/o/r/actions/runs/42",
        "headBranch": "release/next",
        "event": "workflow_dispatch"
    }]"#;
    let runs = list(Ok(json.to_string()), "run list").unwrap();
    assert_eq!(runs[0].id, 42);
    assert!(runs[0].succeeded());
    assert!(runs[0].is_dispatched());
}

#[test]
fn run_json_tolerates_missing_optional_fields() {
    let json = r#"{"databaseId": 7, "displayTitle": "x", "status": "queued"}"#;
    let run = view(Ok(json.to_string()), "run view").unwrap();
    assert_eq!(run.id, 7);
    assert!(!run.is_finished());
    assert_eq!(run.conclusion, "");
}

#[test]
fn a_run_without_an_id_is_a_decode_error() {
    let e = view(Ok(r#"{"status": "queued"}"#.to_string()), "run view 7").unwrap_err();
    assert!(matches!(e, GhError::Decode { ref args, .. } if args == "run view 7"), "{e:?}");
    let e = list(Ok("not json".to_string()), "run list").unwrap_err();
    assert!(matches!(e, GhError::Decode { .. }));
}

#[test]
fn not_found_help_names_the_two_real_causes() {
    let help = not_found_help(&WorkflowRef::unresolved("prepare-release"));
    assert!(help.contains("workflow_dispatch"), "{help}");
    assert!(help.contains("from that ref"), "{help}");
    assert!(help.starts_with("confirm `prepare-release` exists"), "{help}");
}

#[test]
fn only_dispatched_runs_are_candidates() {
    let push = run_at(43, "push");
    assert!(!push.is_dispatched());
    assert!(run_at(43, "workflow_dispatch").is_dispatched());
}

#[test]
fn a_pre_existing_run_is_never_mistaken_for_ours() {
    let known: HashSet<u64> = [41, 42].into_iter().collect();
    let candidates = vec![run_at(41, "workflow_dispatch"), run_at(42, "workflow_dispatch")];
    assert!(pick_new(&candidates, &known).is_none());
}

#[test]
fn the_newest_new_dispatched_run_wins() {
    let runs = vec![
        run_at(41, "workflow_dispatch"),
        run_at(50, "push"),
        run_at(44, "workflow_dispatch"),
        run_at(43, "workflow_dispatch"),
    ];
    let picked = pick_new(&runs, &HashSet::from([41])).unwrap();
    assert_eq!(picked.id, 44);
}

#[test]
fn legacy_ship_id_shim_only_fires_on_that_error() {
    let missing = GhError::Failed {
        args: "workflow run".into(),
        stderr: "required input 'ship_id' not provided".into(),
        help: None,
    };
    assert!(needs_legacy_ship_id(&missing));

    let unrelated = GhError::Failed {
        args: "workflow run".into(),
        stderr: "HTTP 404: Not Found".into(),
        help: None,
    };
    assert!(!needs_legacy_ship_id(&unrelated));
    assert!(!needs_legacy_ship_id(&GhError::NotAuthenticated));
}

#[test]
fn a_dispatch_that_wants_ship_id_is_retried_once() {
    let wants = Err(GhError::Failed {
        args: "workflow run".into(),
        stderr: "Required input 'SHIP_ID' not provided".into(),
        help: None,
    });
    assert!(matches!(dispatch(wants.clone(), false), Dispatched::RetryWithShipId));
    assert!(matches!(dispatch(wants, true), Dispatched::Failed(RunError::Gh(_))));
    assert!(matches!(dispatch(Ok(String::new()), false), Dispatched::Done(false)));
    assert!(matches!(dispatch(Ok(String::new()), true), Dispatched::Done(true)));
}

#[test]
fn dispatch_arguments_name_the_workflow_file() {
    let w = WorkflowRef { id: "prepare.yml".into(), slug: "prepare".into() };
    let inputs = vec![("dry_run".to_string(), "true".to_string())];
    let call = dispatch_call(&w, "release/next", &inputs, None);
    assert_eq!(
        call.args,
        vec!["workflow", "run", "prepare.yml", "--ref", "release/next", "-f", "dry_run=true"]
    );
    assert!(call.scoped);
    let call = dispatch_call(&w, "main", &[], Some("abc123def456"));
    assert_eq!(call.args, vec!["workflow", "run", "prepare.yml", "--ref", "main", "-f", "ship_id=abc123def456"]);
}

#[test]
fn list_view_and_download_arguments() {
    let w = WorkflowRef::unresolved("prepare-release");
    let call = list_call(&w, "release/next");
    assert_eq!(
        call.args,
        vec!["run", "list", "--workflow", "prepare-release", "--branch", "release/next", "--limit", "50", "--json", RUN_FIELDS]
    );
    assert_eq!(view_call(1234).args, vec!["run", "view", "1234", "--json", RUN_FIELDS]);
    assert_eq!(
        download_artifact_call(9, "ship-release", "/tmp/x").args,
        vec!["run", "download", "9", "--name", "ship-release", "--dir", "/tmp/x"]
    );
}

#[test]
fn a_failed_listing_snapshots_nothing() {
    assert!(snapshot(Err(GhError::NotAuthenticated)).is_empty());
    assert_eq!(snapshot(Ok(vec![run_at(3, "push"), run_at(1, "workflow_dispatch")])), HashSet::from([3, 1]));
}

#[test]
fn the_search_gives_up_only_after_the_timeout() {
    let w = WorkflowRef::unresolved("prepare-release");
    assert!(matches!(find_step(Ok(vec![]), &HashSet::new(), &w, 10, 90), Search::Wait));
    match find_step(Ok(vec![]), &HashSet::new(), &w, 90, 90) {
        Search::GiveUp(e @ RunError::NotFound { .. }) => {
            assert_eq!(e.message(), "dispatched `prepare-release`, but no matching run appeared within 90s");
            assert!(e.help().unwrap().contains("from that ref"));
        }
        other => panic!("{other:?}"),
    }
    match find_step(Ok(vec![run_at(5, "workflow_dispatch")]), &HashSet::new(), &w, 200, 90) {
        Search::Found(r) => assert_eq!(r.id, 5),
        other => panic!("{other:?}"),
    }
}

#[test]
fn waiting_reports_failure_timeout_and_success() {
    let w = WorkflowRef::unresolved("publish-release");
    let mut r = run_at(7, "workflow_dispatch");
    r.url = "https://x/7".into();
    assert!(matches!(wait_step(&r, &w, 0, 10), Progress::Succeeded(_)));
    r.conclusion = String::new();
    r.status = "completed".into();
    match wait_step(&r, &w, 0, 10) {
        Progress::Stopped(e) => {
            assert_eq!(e.message(), "`publish-release` finished with conclusion `unknown`");
            assert_eq!(e.help().unwrap(), "inspect the failure: https://x/7");
        }
        other => panic!("{other:?}"),
    }
    r.status = "in_progress".into();
    assert!(matches!(wait_step(&r, &w, 5, 10), Progress::Poll));
    match wait_step(&r, &w, 3600, 3600) {
        Progress::Stopped(e) => assert_eq!(e.message(), "`publish-release` did not finish within 60m"),
        other => panic!("{other:?}"),
    }
}

#[test]
fn timeouts_fall_back_to_their_defaults() {
    assert_eq!(appear_timeout(None), 90);
    assert_eq!(appear_timeout(Some("5")), 5);
    assert_eq!(appear_timeout(Some("soon")), 90);
    assert_eq!(run_timeout(None), 3600);
    assert_eq!(run_timeout(Some("120")), 120);
}

#[test]
fn backoff_grows_then_caps() {
    let mut d = POLL_MIN_MILLIS;
    for _ in 0..20 {
        d = backoff(d);
    }
    assert_eq!(d, POLL_MAX_MILLIS, "polling must not grow without bound");
    assert!(backoff(POLL_MIN_MILLIS) > POLL_MIN_MILLIS);
}

#[test]
fn backoff_takes_half_again_until_the_cap() {
    assert_eq!(backoff(2000), 3000);
    assert_eq!(backoff(3000), 4500);
    assert_eq!(backoff(4500), 6750);
    assert_eq!(backoff(6750), 10125);
    assert_eq!(backoff(10125), 15000);
    assert_eq!(backoff(u64::MAX), 15000);
}
