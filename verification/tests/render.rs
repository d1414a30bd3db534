use gh_ship::artifact::{Artifact, PullRequest, Release};
use gh_ship::config::PullRequestConfig;
use gh_ship::render::{
    assemble_body, embed_artifact, extract_artifact, render, strip_artifact, template_help,
    TemplateFailureKind, TemplateTopic, ARTIFACT_MARKER_END, ARTIFACT_MARKER_START,
};

fn artifact() -> Artifact {
    Artifact {
        schema_version: 1,
        changed: true,
        version: Some("1.4.0".into()),
        tag: Some("v1.4.0".into()),
        release: Some(Release {
            name: Some("Release v1.4.0".into()),
            notes: Some("## What's Changed\n\n* Everything".into()),
            prerelease: Some(false),
            make_latest: None,
        }),
        pull_request: None,
    }
}

#[test]
fn renders_title_from_the_artifact_root_context() {
    let cfg = PullRequestConfig::default();
    let r = render(&cfg, &artifact()).unwrap();
    assert_eq!(r.title, "Release 1.4.0");
}

#[test]
fn tag_is_available_too() {
    let cfg = PullRequestConfig {
        title: "Ship {{ tag }}".into(),
        ..Default::default()
    };
    assert_eq!(render(&cfg, &artifact()).unwrap().title, "Ship v1.4.0");
}

#[test]
fn nested_release_fields_are_addressable() {
    let cfg = PullRequestConfig {
        title: "{{ release.name }}".into(),
        ..Default::default()
    };
    assert_eq!(render(&cfg, &artifact()).unwrap().title, "Release v1.4.0");
}

#[test]
fn body_is_header_notes_footer() {
    let cfg = PullRequestConfig {
        header: Some("Heads up.\n".into()),
        footer: Some("Bye.\n".into()),
        ..Default::default()
    };
    let r = render(&cfg, &artifact()).unwrap();
    assert_eq!(
        r.body,
        "Heads up.\n\n## What's Changed\n\n* Everything\n\nBye."
    );
}

#[test]
fn omitted_header_and_footer_leave_no_blank_lines() {
    let r = render(&PullRequestConfig::default(), &artifact()).unwrap();
    assert_eq!(r.body, "## What's Changed\n\n* Everything");
    assert!(!r.body.starts_with('\n'));
}

#[test]
fn empty_notes_do_not_produce_stray_separators() {
    let mut a = artifact();
    a.release = None;
    let cfg = PullRequestConfig {
        header: Some("Only this.".into()),
        ..Default::default()
    };
    assert_eq!(render(&cfg, &a).unwrap().body, "Only this.");
}

#[test]
fn artifact_can_override_title_and_body() {
    let mut a = artifact();
    a.pull_request = Some(PullRequest {
        title: Some("Custom title".into()),
        body: Some("Custom body".into()),
        labels: vec![],
    });
    let cfg = PullRequestConfig {
        header: Some("ignored".into()),
        ..Default::default()
    };
    let r = render(&cfg, &a).unwrap();
    assert_eq!(r.title, "Custom title");
    assert_eq!(
        r.body, "Custom body",
        "an explicit body must skip header/footer assembly entirely"
    );
}

#[test]
fn labels_merge_without_duplicates() {
    let mut a = artifact();
    a.pull_request = Some(PullRequest {
        labels: vec!["release".into(), "automated".into()],
        ..Default::default()
    });
    let cfg = PullRequestConfig {
        labels: vec!["release".into()],
        ..Default::default()
    };
    assert_eq!(render(&cfg, &a).unwrap().labels, ["release", "automated"]);
}

#[test]
fn undefined_variable_help_names_the_actual_mistake() {
    let cfg = PullRequestConfig {
        title: "{{ release.version }}".into(),
        ..Default::default()
    };
    let help = template_help(TemplateTopic::Artifact, TemplateFailureKind::Undefined);
    assert!(help.contains("not `{{ release.version }}`"), "{help}");
    let _ = render(&cfg, &artifact());
}

#[test]
fn syntax_errors_are_reported_with_a_span() {
    let cfg = PullRequestConfig {
        title: "Release {{ version".into(),
        ..Default::default()
    };
    let e = render(&cfg, &artifact()).unwrap_err();
    assert_eq!(e.field, "pull_request.title");
    assert!(e.help.contains("syntax"), "{}", e.help);
}

// --- artifact embedding ---------------------------------------------

#[test]
fn artifact_round_trips_through_a_pr_body() {
    let a = artifact();
    let body = embed_artifact("## Release\n\nSome notes.", &a);
    assert_eq!(extract_artifact(&body).unwrap(), a);
}

#[test]
fn embedding_replaces_a_previous_artifact() {
    let mut a = artifact();
    let body = embed_artifact("Notes.", &a);

    a.version = Some("2.0.0".into());
    a.tag = Some("v2.0.0".into());
    let updated = embed_artifact(&body, &a);

    assert_eq!(extract_artifact(&updated).unwrap().version(), Some("2.0.0"));
    assert_eq!(
        updated.matches(ARTIFACT_MARKER_START).count(),
        1,
        "re-running prepare must not stack artifact blocks"
    );
}

#[test]
fn embedded_artifact_is_invisible_in_rendered_markdown() {
    let body = embed_artifact("Visible.", &artifact());
    assert!(body.starts_with("Visible."));
    assert!(
        body.contains("<!--") && body.contains("-->"),
        "the artifact must live in an HTML comment: {body}"
    );
}

#[test]
fn notes_containing_a_comment_terminator_survive_the_round_trip() {
    let mut a = artifact();
    a.release.as_mut().unwrap().notes = Some("- Extract <!-- more --> summary".into());

    let body = embed_artifact("Visible.", &a);

    let block = &body[body.find(ARTIFACT_MARKER_START).unwrap()..];
    assert_eq!(
        block.matches(ARTIFACT_MARKER_END).count(),
        1,
        "the payload must not be able to close the comment it lives in: {block}"
    );

    assert_eq!(extract_artifact(&body).unwrap(), a);
    assert_eq!(strip_artifact(&body).trim(), "Visible.");
}

#[test]
fn stripping_recovers_the_human_body() {
    let original = "## Release\n\nSome notes.";
    let body = embed_artifact(original, &artifact());
    assert_eq!(strip_artifact(&body).trim(), original);
}

#[test]
fn extracting_from_a_body_without_an_artifact_returns_none() {
    assert!(extract_artifact("just a normal PR body").is_none());
    assert!(extract_artifact("").is_none());
}

#[test]
fn malformed_embedded_artifact_is_ignored_rather_than_fatal() {
    assert!(extract_artifact("<!-- ship:artifact\nnot json\n-->").is_none());
    assert_eq!(
        strip_artifact("<!-- ship:artifact\nunterminated"),
        "<!-- ship:artifact\nunterminated"
    );
}

#[test]
fn embedding_into_an_empty_body_produces_only_the_block() {
    let body = embed_artifact("", &artifact());
    assert!(body.starts_with(ARTIFACT_MARKER_START));
    assert!(extract_artifact(&body).is_some());
}

#[test]
fn assembling_trims_and_skips_blank_parts() {
    assert_eq!(assemble_body(Some("  \n"), " notes ", None), "notes");
    assert_eq!(assemble_body(None, "", Some("footer")), "footer");
    assert_eq!(assemble_body(None, "", None), "");
}

#[test]
fn the_embedded_block_is_exact() {
    let a = Artifact {
        schema_version: 1,
        changed: false,
        version: None,
        tag: None,
        release: None,
        pull_request: None,
    };
    assert_eq!(
        embed_artifact("", &a),
        "<!-- ship:artifact\n{\"schemaVersion\":1,\"changed\":false}\n-->"
    );
    assert_eq!(
        embed_artifact("Body  \n", &a),
        "Body\n\n<!-- ship:artifact\n{\"schemaVersion\":1,\"changed\":false}\n-->\n"
    );
}
