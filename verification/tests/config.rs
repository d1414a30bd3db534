use gh_ship::config::{
    Config, ConfigError, PullRequestConfig, ReleaseConfig, Settings, Workflows, YamlError,
    DEFAULT_PR_TITLE, DEFAULT_RELEASE_BRANCH,
};

/// The settings a YAML reader gives for a config with these keys, the
/// others defaulted.
fn settings(version: u32, release_branch: &str, branches: &[&str], prepare: &str) -> Settings {
    Settings {
        version,
        release_branch: release_branch.to_string(),
        branches: branches.iter().map(|b| b.to_string()).collect(),
        overrides: vec![],
        workflows: Workflows { prepare: prepare.to_string(), publish: None },
        pull_request: PullRequestConfig::default(),
        release: ReleaseConfig::default(),
    }
}

fn parse(text: &str, parsed: Result<Settings, YamlError>) -> Result<Config, ConfigError> {
    Config::from_parsed(".github/ship.yml", text, parsed)
}

#[test]
fn minimal_config_is_enough() {
    let text = "version: 1\nworkflows:\n  prepare: prepare-release\n";
    let c = parse(text, Ok(settings(1, DEFAULT_RELEASE_BRANCH, &[], "prepare-release"))).unwrap();
    assert_eq!(c.prepare_workflow(), "prepare-release");
    assert_eq!(c.release_branch_template(), DEFAULT_RELEASE_BRANCH);
    assert_eq!(c.publish_workflow(), None);
    assert_eq!(c.settings.pull_request.title, DEFAULT_PR_TITLE);
    assert!(c.settings.release.draft, "draft-first is the default");
    assert!(!c.has_branches(), "no branches means the repo default branch");
}

#[test]
fn parses_several_release_lines() {
    let text = "version: 1\nbranches: [main, \"release/*\"]\nrelease_branch: \"next/{{ match }}\"\nworkflows:\n  prepare: x\n";
    let c = parse(text, Ok(settings(1, "next/{{ match }}", &["main", "release/*"], "x"))).unwrap();
    assert_eq!(c.branches(), ["main", "release/*"]);
    assert!(c.has_branches());
}

#[test]
fn base_branch_explains_its_replacement() {
    let text = "version: 1\nbase_branch: develop\nworkflows:\n  prepare: x\n";
    let e = parse(
        text,
        Err(YamlError {
            message: "unknown field `base_branch`, expected one of `version`, `release_branch`, `branches`, `workflows`, `pull_request`, `release` at line 2 column 1".into(),
            index: Some(11),
        }),
    )
    .unwrap_err();
    let ConfigError::RemovedField { field, help, span } = &e else {
        panic!("expected RemovedField, got {e:?}")
    };
    assert_eq!(field, "base_branch");
    assert!(help.contains("branches: [develop]"), "{help}");
    assert_eq!(&text[span.offset()..span.offset() + span.len()], "base_branch:");
}

#[test]
fn rejects_a_pattern_with_several_wildcards() {
    let text = "version: 1\nbranches: [\"a*b*c\"]\nworkflows:\n  prepare: x\n";
    let e = parse(text, Ok(settings(1, DEFAULT_RELEASE_BRANCH, &["a*b*c"], "x"))).unwrap_err();
    let ConfigError::BranchPattern { pattern, .. } = &e else {
        panic!("expected BranchPattern, got {e:?}")
    };
    assert_eq!(pattern, "a*b*c");
}

#[test]
fn rejects_a_duplicated_branch() {
    let text = "version: 1\nbranches: [main, main]\nworkflows:\n  prepare: x\n";
    let e = parse(text, Ok(settings(1, DEFAULT_RELEASE_BRANCH, &["main", "main"], "x"))).unwrap_err();
    assert!(matches!(e, ConfigError::DuplicateBranch { .. }), "{e:?}");
}

#[test]
fn rejects_an_empty_branch_entry() {
    let text = "version: 1\nbranches: [\"  \"]\nworkflows:\n  prepare: x\n";
    let e = parse(text, Ok(settings(1, DEFAULT_RELEASE_BRANCH, &["  "], "x"))).unwrap_err();
    let ConfigError::EmptyField { field, .. } = &e else {
        panic!("expected EmptyField, got {e:?}")
    };
    assert_eq!(field, "branches[0]");
}

#[test]
fn rejects_unknown_top_level_field() {
    let text = "version: 1\nworkflows:\n  prepare: x\nevents:\n  foo: bar\n";
    let e = parse(
        text,
        Err(YamlError {
            message: "unknown field `events`, expected one of `version`, `release_branch`, `branches`, `workflows`, `pull_request`, `release` at line 4 column 1".into(),
            index: Some(31),
        }),
    )
    .unwrap_err();
    let msg = e.message();
    assert!(msg.contains("unknown field"), "{msg}");
}

#[test]
fn rejects_unsupported_version() {
    let text = "version: 99\nworkflows:\n  prepare: x\n";
    let e = parse(text, Ok(settings(99, DEFAULT_RELEASE_BRANCH, &[], "x"))).unwrap_err();
    assert!(matches!(e, ConfigError::UnsupportedVersion { found: 99, .. }));
}

#[test]
fn requires_a_prepare_workflow() {
    let text = "version: 1\nworkflows: {}\n";
    let e = parse(
        text,
        Err(YamlError { message: "workflows: missing field `prepare` at line 2 column 12".into(), index: Some(11) }),
    )
    .unwrap_err();
    assert!(e.message().contains("prepare"), "{}", e.message());
}

#[test]
fn rejects_empty_prepare_workflow() {
    let text = "version: 1\nworkflows:\n  prepare: \"  \"\n";
    let e = parse(text, Ok(settings(1, DEFAULT_RELEASE_BRANCH, &[], "  "))).unwrap_err();
    assert!(matches!(e, ConfigError::EmptyField { .. }));
}

#[test]
fn rejects_empty_release_branch() {
    let text = "version: 1\nrelease_branch: \"\"\nworkflows:\n  prepare: x\n";
    let e = parse(text, Ok(settings(1, "", &[], "x"))).unwrap_err();
    let ConfigError::EmptyField { field, help, .. } = &e else {
        panic!("expected EmptyField, got {e:?}")
    };
    assert_eq!(field, "release_branch");
    assert!(help.as_ref().unwrap().contains(DEFAULT_RELEASE_BRANCH));
}

#[test]
fn syntax_errors_carry_a_position() {
    let text = "version: 1\nworkflows:\n\tprepare: x\n";
    let e = parse(
        text,
        Err(YamlError { message: "found a tab character that violates indentation".into(), index: Some(22) }),
    )
    .unwrap_err();
    let ConfigError::Parse { span, .. } = &e else {
        panic!("expected Parse, got {e:?}")
    };
    assert_eq!((span.offset(), span.len()), (22, 1));
}

#[test]
fn missing_workflows_block_is_explained() {
    let text = "version: 1\n";
    let e = parse(text, Err(YamlError { message: "missing field `workflows`".into(), index: None })).unwrap_err();
    let ConfigError::Parse { help, .. } = &e else {
        panic!("expected Parse, got {e:?}")
    };
    assert!(help.as_ref().unwrap().contains("workflows:"), "{help:?}");
}

#[test]
fn an_unsupported_version_is_located_and_summarised() {
    let text = "version: 99\nworkflows:\n  prepare: x\n";
    let e = parse(text, Ok(settings(99, DEFAULT_RELEASE_BRANCH, &[], "x"))).unwrap_err();
    assert_eq!(e.message(), "unsupported config version: 99 (expected 1)");
    let ConfigError::UnsupportedVersion { span, .. } = &e else { unreachable!() };
    assert_eq!(&text[span.offset()..span.offset() + span.len()], "version: 99");
}

#[test]
fn parse_help_names_the_missing_version() {
    assert_eq!(
        gh_ship::config::parse_help("missing field `version`"),
        Some("start the file with `version: 1`".to_string())
    );
    assert_eq!(gh_ship::config::parse_help("something else"), None);
}
