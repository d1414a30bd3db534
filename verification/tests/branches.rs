use gh_ship::branches::{branch_rule, check, glob_match, is_pattern, resolve, single, BranchError};
use gh_ship::commands::validate::release_lines;
use gh_ship::gh::repo::create_pull_request_call;
use gh_ship::style::Theme;
use gh_ship::config::{Config, PullRequestConfig, ReleaseConfig, Settings, Source, Workflows};

/// The config `version: 1\nbranches: {branches}\nrelease_branch: "{release_branch}"\nworkflows:\n  prepare: x\n`.
fn config(branches: &[&str], release_branch: &str) -> Config {
    let text = format!(
        "version: 1\nbranches: {:?}\nrelease_branch: \"{release_branch}\"\nworkflows:\n  prepare: x\n",
        branches
    );
    let settings = Settings {
        version: 1,
        release_branch: release_branch.to_string(),
        branches: branches.iter().map(|b| b.to_string()).collect(),
        overrides: vec![],
        workflows: Workflows { prepare: "x".into(), publish: None },
        pull_request: PullRequestConfig::default(),
        release: ReleaseConfig::default(),
    };
    Config::from_parsed(".github/ship.yml", &text, Ok(settings)).expect("config parses")
}

#[test]
fn glob_captures_the_varying_part() {
    assert_eq!(glob_match("release/*", "release/1.x").as_deref(), Some("1.x"));
    assert_eq!(glob_match("*-maint", "1.x-maint").as_deref(), Some("1.x"));
    assert_eq!(glob_match("v*.x", "v1.x").as_deref(), Some("1"));
}

#[test]
fn glob_spans_slashes() {
    assert_eq!(glob_match("release/*", "release/1/x").as_deref(), Some("1/x"));
}

#[test]
fn glob_requires_something_to_capture() {
    assert_eq!(glob_match("release/*", "release/"), None);
    assert_eq!(glob_match("release/*", "main"), None);
    assert_eq!(glob_match("release/*", "hotfix/1.x"), None);
}

#[test]
fn exact_entry_beats_a_later_pattern() {
    let c = config(&["release/*", "release/next"], "next/{{ match }}");
    let line = resolve(&c, "release/next").unwrap();
    assert_eq!(line.entry, Some(1), "the exact entry wins on merit");
    assert_eq!(
        line.release, "next/release/next",
        "an exact entry captures the whole branch"
    );
}

#[test]
fn patterns_are_tried_in_declaration_order() {
    let c = config(&["release/*", "*"], "next/{{ match }}");
    assert_eq!(resolve(&c, "release/1.x").unwrap().entry, Some(0));
    assert_eq!(resolve(&c, "anything").unwrap().entry, Some(1));
}

#[test]
fn both_template_variables_render() {
    let c = config(&["release/*"], "{{ branch }}+{{ match }}");
    assert_eq!(
        resolve(&c, "release/1.x").unwrap().release,
        "release/1.x+1.x"
    );
}

#[test]
fn a_single_line_gets_the_branch_as_its_match() {
    let c = config(&[], "next/{{ match }}");
    let line = single(&c, "main").unwrap();
    assert_eq!(line.release, "next/main");
    assert_eq!(line.entry, None);
}

#[test]
fn no_match_lists_the_configured_lines() {
    let c = config(&["main", "release/*"], "next/{{ match }}");
    let e = resolve(&c, "feature/x").unwrap_err();
    let BranchError::NoMatch { help, .. } = &e else {
        panic!("expected NoMatch, got {e:?}")
    };
    assert!(help.contains("`main`"), "{help}");
    assert!(help.contains("`release/*`"), "{help}");
}

#[test]
fn no_match_suggests_a_near_miss() {
    let c = config(&["main", "develop"], "next/{{ match }}");
    let e = resolve(&c, "mian").unwrap_err();
    let BranchError::NoMatch { help, .. } = &e else {
        panic!("expected NoMatch, got {e:?}")
    };
    assert!(help.contains("did you mean `main`?"), "{help}");
}

#[test]
fn a_constant_release_branch_is_rejected_for_several_lines() {
    let c = config(&["main", "release/*"], "release/next");
    let e = check(&c).unwrap_err();
    assert!(
        matches!(e, BranchError::AmbiguousReleaseBranch { .. }),
        "{e:?}"
    );
}

#[test]
fn a_constant_release_branch_is_fine_for_one_line() {
    let c = config(&["main"], "release/next");
    check(&c).expect("one line cannot collide with itself");
}

#[test]
fn a_varying_release_branch_passes() {
    check(&config(&["main", "release/*"], "next/{{ match }}")).unwrap();
    check(&config(&["main", "release/*"], "next/{{ branch }}")).unwrap();
}

#[test]
fn a_broken_template_is_reported_as_a_template_error() {
    let c = config(&["main"], "next/{{ match ");
    let e = check(&c).unwrap_err();
    assert!(matches!(e, BranchError::Template(_)), "{e:?}");
}

#[test]
fn patterns_are_entries_with_a_star() {
    assert!(is_pattern("release/*"));
    assert!(!is_pattern("main"));
}

#[test]
fn no_match_help_is_exact() {
    let c = config(&["main", "release/*"], "next/{{ match }}");
    let e = resolve(&c, "zzzzzz").unwrap_err();
    let BranchError::NoMatch { base, help } = &e else {
        panic!("expected NoMatch, got {e:?}")
    };
    assert_eq!(base, "zzzzzz");
    assert_eq!(
        help,
        "`branches` lists `main`, `release/*`. Add `zzzzzz` to it, or pass `--base` to release from a branch that is listed"
    );
    assert_eq!(e.message(), "no branch rule matches `zzzzzz`");
}

#[test]
fn an_ambiguous_release_branch_names_the_template_and_where_it_is() {
    let c = config(&["main", "release/*"], "release/next");
    let BranchError::AmbiguousReleaseBranch { help, span } = check(&c).unwrap_err() else {
        panic!("expected AmbiguousReleaseBranch")
    };
    assert!(help.starts_with("`release/next` renders the same for every base branch."), "{help}");
    let text = &c.source.text;
    assert_eq!(&text[span.offset()..span.offset() + span.len()], "release_branch:");
    let _ = Source::default();
}

#[test]
fn a_constant_release_branch_across_lines_is_refused() {
    let c = config(&["main", "release/*"], "release/next");
    let e = check(&c).unwrap_err();
    assert_eq!(e.code(), "ship::branches::constant_glob_release_branch", "two lines would collide on one branch");
    let (span, label) = e.label().expect("the refusal points at the template");
    assert_eq!(label, "does not vary per line");
    assert_eq!(&c.source.text[span.offset..span.offset + span.len], "release_branch:");
}

#[test]
fn branch_errors_carry_their_code_and_help() {
    let c = config(&["main"], "next/{{ match }}");
    let e = resolve(&c, "develop").unwrap_err();
    assert_eq!(e.code(), "ship::branches::no_match");
    assert!(e.label().is_none());
    assert!(!e.help().is_empty());
    let broken = config(&["main"], "next/{{ match ");
    assert_eq!(resolve(&broken, "main").unwrap_err().code(), "ship::template");
}

#[test]
fn two_globs_that_can_produce_one_branch_are_refused() {
    // `release/1.x` and `v1.x` both capture `1.x`.
    let c = config(&["release/*", "v*"], "next/{{ match }}");
    let e = check(&c).unwrap_err();
    assert_eq!(e.code(), "ship::branches::colliding_globs", "{}", e.message());
    let BranchError::CollidingGlobs { first, second, .. } = &e else {
        panic!("expected CollidingGlobs")
    };
    assert_eq!((first.as_str(), second.as_str()), ("release/*", "v*"));
    // Telling the lines apart by the whole branch resolves it.
    check(&config(&["release/*", "v*"], "next/{{ branch }}")).unwrap();
}

#[test]
fn a_release_branch_that_is_a_base_branch_is_refused() {
    // `branches: [{branch: main, release_branch: main}]`
    let text = "version: 1\nbranches:\n  - branch: main\n    release_branch: main\nworkflows:\n  prepare: prepare-release\n";
    let settings = Settings {
        version: 1,
        release_branch: gh_ship::config::default_release_branch(),
        branches: vec!["main".to_string()],
        overrides: vec![Some("main".to_string())],
        workflows: Workflows { prepare: "prepare-release".into(), publish: None },
        pull_request: PullRequestConfig::default(),
        release: ReleaseConfig::default(),
    };
    let c = Config::from_parsed(".github/ship.yml", text, Ok(settings)).expect("config parses");
    let e = check(&c).unwrap_err();
    assert_eq!(e.code(), "ship::branches::release_branch_is_base_branch", "a PR from main into main is not a release");
    assert_eq!(e.message(), "`main` would stage its releases on a base branch");
    // The same with the top-level template.
    let c = config(&["main"], "main");
    let e = check(&c).unwrap_err();
    assert_eq!(e.code(), "ship::branches::release_branch_is_base_branch", "a PR from main into main is not a release");
    assert_eq!(e.message(), "`main` would stage its releases on a base branch");
    let (span, label) = e.label().unwrap();
    assert_eq!(label, "renders a base branch");
    assert_eq!(&c.source.text[span.offset..span.offset + span.len], "release_branch:");
}

#[test]
fn a_release_branch_naming_another_line_is_refused_too() {
    let c = config(&["main", "develop"], "{{ match }}-next");
    check(&c).unwrap();
    let c = config(&["main", "main-next"], "{{ match }}-next");
    assert_eq!(check(&c).unwrap_err().code(), "ship::branches::release_branch_is_base_branch");
}

/// `branches: [{branch: main, release_branch: next/release}, "release/*"]`
/// under `release_branch: "next/{{ match }}"`.
fn overridden() -> Config {
    let text = "version: 1\nrelease_branch: \"next/{{ match }}\"\nbranches:\n  - branch: main\n    release_branch: next/release\n  - \"release/*\"\nworkflows:\n  prepare: prepare-release\n";
    let settings = Settings {
        version: 1,
        release_branch: "next/{{ match }}".to_string(),
        branches: vec!["main".to_string(), "release/*".to_string()],
        overrides: vec![Some("next/release".to_string()), None],
        workflows: Workflows { prepare: "prepare-release".into(), publish: None },
        pull_request: PullRequestConfig::default(),
        release: ReleaseConfig::default(),
    };
    Config::from_parsed(".github/ship.yml", text, Ok(settings)).expect("config parses")
}

#[test]
fn an_overridden_line_stages_where_it_says() {
    let c = overridden();
    let line = resolve(&c, "main").expect("main is a line");
    assert_eq!(line.release, "next/release");
    assert_eq!(branch_rule(&c, &line), Some("main"));
}

#[test]
fn a_line_without_an_override_still_falls_back() {
    let c = overridden();
    let line = resolve(&c, "release/1.x").expect("release/1.x is a line");
    assert_eq!(line.release, "next/1.x");
    assert_eq!(branch_rule(&c, &line), Some("release/*"));
}

#[test]
fn prepare_opens_the_pull_request_from_the_overridden_branch() {
    let c = overridden();
    let line = resolve(&c, "main").expect("main is a line");
    let call = create_pull_request_call(&line.release, &line.base, "chore: release", "body", &[]);
    let head = call.args.iter().position(|a| a == "--head").expect("a head is given");
    assert_eq!(call.args[head + 1], "next/release");
}

#[test]
fn validate_says_which_lines_override_the_template() {
    let c = overridden();
    check(&c).expect("the overridden config is sound");
    let lines = release_lines(&c, &Theme::plain()).expect("every line resolves");
    assert_eq!(
        lines,
        vec![
            "  release line: main -> next/release (override)".to_string(),
            "  release line: release/* -> next/{{ match }} (per match)".to_string(),
        ]
    );
}

#[test]
fn the_single_line_has_no_branch_rule() {
    let c = config(&[], "next/{{ match }}");
    let line = single(&c, "main").expect("renders");
    assert_eq!(branch_rule(&c, &line), None);
}

#[test]
fn a_constant_top_level_template_is_fine_when_every_line_overrides_it() {
    let text = "version: 1\nbranches:\n  - branch: main\n    release_branch: next/main\n  - branch: develop\n    release_branch: next/develop\nworkflows:\n  prepare: x\n";
    let mut settings = Settings {
        version: 1,
        release_branch: gh_ship::config::default_release_branch(),
        branches: vec!["main".to_string(), "develop".to_string()],
        overrides: vec![Some("next/main".to_string()), Some("next/develop".to_string())],
        workflows: Workflows { prepare: "x".into(), publish: None },
        pull_request: PullRequestConfig::default(),
        release: ReleaseConfig::default(),
    };
    let c = Config::from_parsed(".github/ship.yml", text, Ok(settings.clone())).expect("config parses");
    check(&c).expect("no line uses the constant template");
    assert_eq!(resolve(&c, "develop").unwrap().release, "next/develop");
    // One line falling back to it is still fine; two are not.
    settings.overrides = vec![None, Some("next/develop".to_string())];
    let c = Config::from_parsed(".github/ship.yml", text, Ok(settings.clone())).expect("config parses");
    check(&c).expect("one line on the constant template");
    settings.overrides = vec![];
    let c = Config::from_parsed(".github/ship.yml", text, Ok(settings)).expect("config parses");
    assert_eq!(check(&c).unwrap_err().code(), "ship::branches::constant_glob_release_branch");
}
