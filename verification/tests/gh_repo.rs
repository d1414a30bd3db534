use gh_ship::gh::cli::GhError;
use gh_ship::gh::repo::{
    branch_exists, create_release_call, create_tag, delete_branch, ensure_labels,
    find_pull_request, label_names, matching_branches, release_exists, repository, state,
    view_pull_request, NewRelease,
};

fn failed(stderr: &str) -> Result<String, GhError> {
    Err(GhError::Failed { args: "x".into(), stderr: stderr.into(), help: None })
}

#[test]
fn pull_request_state_is_read_case_insensitively() {
    for s in ["MERGED", "merged", "Merged"] {
        assert!(state::is_merged(s), "{s}");
        assert!(!state::is_open(s), "{s}");
        assert!(!state::is_closed(s), "{s}");
    }
    assert!(state::is_open("OPEN"));
    assert!(state::is_closed("CLOSED"));
    assert!(!state::is_merged("CLOSED"));
}

#[test]
fn repository_json_deserialises() {
    let json = r#"{
        "nameWithOwner": "noirbizarre/gh-ship",
        "defaultBranchRef": {"name": "main"},
        "url": "https://github.com/noirbizarre/gh-ship"
    }"#;
    let r = repository(Ok(json.into()), "repo view").unwrap();
    assert_eq!(r.name_with_owner, "noirbizarre/gh-ship");
    assert_eq!(r.default_branch.name, "main");
}

#[test]
fn pull_request_state_predicates() {
    let open = view_pull_request(
        Ok(r#"{"number":1,"state":"OPEN","url":"u","title":"t","body":"b"}"#.into()),
        "pr view 1",
    )
    .unwrap();
    assert!(open.is_open());
    assert!(!open.is_merged());
    assert_eq!(open.merged_sha(), None);

    let merged = view_pull_request(
        Ok(r#"{"number":1,"state":"MERGED","url":"u","title":"t","body":"b",
            "mergeCommit":{"oid":"abc123"}}"#
            .into()),
        "pr view 1",
    )
    .unwrap();
    assert!(merged.is_merged());
    assert_eq!(merged.merged_sha(), Some("abc123"));
}

#[test]
fn pull_request_json_tolerates_missing_fields() {
    let pr = view_pull_request(Ok(r#"{"number":7,"state":"OPEN","mergeCommit":null}"#.into()), "pr view 7").unwrap();
    assert_eq!(pr.number, 7);
    assert!(pr.merged_sha().is_none());
    assert_eq!(pr.body, "", "a PR with no body must not fail to parse");
}

#[test]
fn state_matching_is_case_insensitive() {
    for s in ["MERGED", "merged", "Merged"] {
        let pr = view_pull_request(Ok(format!(r#"{{"number":1,"state":"{s}"}}"#)), "pr view 1").unwrap();
        assert!(pr.is_merged(), "state `{s}` should count as merged");
    }
}

#[test]
fn answers_that_mean_absent_are_not_errors() {
    assert_eq!(branch_exists(Ok(String::new())).unwrap(), true);
    assert_eq!(branch_exists(failed("HTTP 404: Not Found")).unwrap(), false);
    assert!(branch_exists(failed("HTTP 500")).is_err());
    assert!(create_tag(failed("Reference already exists (HTTP 422)")).is_ok());
    assert!(create_tag(failed("HTTP 500")).is_err());
    assert!(delete_branch(failed("Reference does not exist")).is_ok());
    assert_eq!(release_exists(failed("release not found")).unwrap(), false);
    assert_eq!(release_exists(Ok("{}".into())).unwrap(), true);
}

#[test]
fn a_pull_request_list_yields_its_first_entry() {
    let none = find_pull_request(Ok("[]".into()), "pr list").unwrap();
    assert!(none.is_none());
    let some = find_pull_request(Ok(r#"[{"number":3},{"number":4}]"#.into()), "pr list").unwrap().unwrap();
    assert_eq!(some.number, 3);
    assert!(matches!(find_pull_request(Ok("[{}]".into()), "pr list"), Err(GhError::Decode { .. })));
}

#[test]
fn matching_refs_become_branch_names() {
    let reply = r#"[{"ref":"refs/heads/release/next-1"},{"ref":"refs/tags/v1"},{"ref":"refs/heads/release/next-2"}]"#;
    assert_eq!(matching_branches(Ok(reply.into())), ["release/next-1", "release/next-2"]);
    assert!(matching_branches(Ok("not json".into())).is_empty());
    assert!(matching_branches(failed("HTTP 500")).is_empty());
}

#[test]
fn labels_are_kept_when_they_exist_or_could_be_created() {
    let existing = label_names(Ok(r#"[{"name":"Release"}]"#.into()));
    assert_eq!(existing, ["Release"]);
    let labels = vec!["release".to_string(), "automated".to_string(), "skip".to_string()];
    let (usable, dropped) = ensure_labels(&labels, &existing, &[false, true, false]);
    assert_eq!(usable, ["release", "automated"]);
    assert_eq!(dropped, ["skip"]);
}

#[test]
fn release_creation_flags_follow_the_request() {
    let call = create_release_call(&NewRelease {
        tag: "v1",
        target: "abc",
        name: "One",
        notes: "n",
        draft: true,
        prerelease: false,
        make_latest: Some(false),
    });
    assert!(call.scoped);
    assert_eq!(
        call.args,
        ["release", "create", "v1", "--target", "abc", "--title", "One", "--notes", "n", "--draft", "--latest=false"]
    );
}
