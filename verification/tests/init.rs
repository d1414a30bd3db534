use gh_ship::commands::init::{
    next_steps, nonconforming_lines, optional_options, required_options, resolve, strategy_of, Choice,
    PromptOption, GENERATE, SKIP,
};
use gh_ship::gh::workflow::{from_document, Workflow, Yaml};
use gh_ship::logger;
use gh_ship::style::Theme;
use gh_ship::templates::TokenStrategy;

fn s(x: &str) -> Yaml {
    Yaml::Str(x.into())
}

/// A workflow as `name: <name>` and `on: <trigger>` would declare it.
fn parse(path: &str, name: &str, on: &str) -> Workflow {
    from_document(path, Some(name.into()), None, &Some(s(on)))
}

fn conforming(path: &str) -> Workflow {
    let inputs = Yaml::Mapping(vec![(
        s("inputs"),
        Yaml::Mapping(vec![(s("ship_id"), Yaml::Mapping(vec![(s("type"), s("string"))]))]),
    )]);
    from_document(
        path,
        None,
        Some("release (ship:${{ inputs.ship_id }})".into()),
        &Some(Yaml::Mapping(vec![(s("workflow_dispatch"), inputs)])),
    )
}

fn pairs(options: &[PromptOption]) -> Vec<(String, String)> {
    options.iter().map(|o| (o.value.clone(), o.label.clone())).collect()
}

#[test]
fn next_steps_explain_the_token_and_the_draft() {
    let t = Theme::plain();

    let without = next_steps(t, false, TokenStrategy::Pat);
    assert!(without.contains("gh ship validate"), "{without}");
    assert!(without.contains("gh ship preview"), "{without}");
    assert!(without.contains("SHIP_TOKEN"), "{without}");
    assert!(
        without.contains("https://noirbizarre.github.io/gh-ship/workflows/#tokens"),
        "{without}"
    );
    assert!(
        !without.contains("DRAFT release"),
        "there is no publish workflow to talk about:\n{without}"
    );

    let with = next_steps(t, true, TokenStrategy::Pat);
    assert!(with.contains("DRAFT release"), "{with}");

    // Each strategy sends the user somewhere different.
    let app = next_steps(t, false, TokenStrategy::App);
    assert!(
        app.contains("APP_CLIENT_ID") && app.contains("APP_PRIVATE_KEY"),
        "{app}"
    );
    assert!(!app.contains("SHIP_TOKEN"), "{app}");
    assert!(
        app.contains("https://noirbizarre.github.io/gh-ship/workflows/#using-a-github-app"),
        "{app}"
    );

    let default = next_steps(t, false, TokenStrategy::Default);
    assert!(default.contains("will not run your CI"), "{default}");
    assert!(!default.contains("SHIP_TOKEN"), "{default}");
}

#[test]
fn describe_leads_with_the_slug() {
    let emoji = parse(".github/workflows/prepare-release.yml", "🚢 Prepare Release", "workflow_dispatch");
    let label = emoji.describe();
    assert!(label.starts_with("prepare-release"), "{label}");
    assert!(label.contains("🚢 Prepare Release"), "{label}");

    // No decoration when the name adds nothing.
    let plain = parse(".github/workflows/ci.yml", "ci", "push");
    assert_eq!(plain.describe(), "ci");
}

#[test]
fn resolve_matches_the_value_the_prompt_offers() {
    let w = parse(".github/workflows/prepare-release.yaml", "🚀 Prepare Release", "workflow_dispatch");
    let conforming = vec![w.clone()];

    // What the prompt option is built from must round-trip.
    match resolve(&w.slug(), &conforming) {
        Choice::Existing(found) => assert_eq!(found.slug(), w.slug()),
        _ => panic!("the offered value must resolve to the workflow it labels"),
    }
    assert!(matches!(resolve("__generate__", &conforming), Choice::Generate));
    assert!(matches!(resolve("__skip__", &conforming), Choice::Skip));
}

#[test]
fn an_unknown_pick_resolves_to_a_skip() {
    let conforming = vec![conforming(".github/workflows/prepare-release.yml")];
    assert!(matches!(resolve("publish-release", &conforming), Choice::Skip));
    assert!(matches!(resolve("prepare-release", &[]), Choice::Skip));
}

#[test]
fn a_slug_finds_the_first_workflow_that_has_it() {
    let a = conforming(".github/workflows/release.yml");
    let b = conforming(".github/workflows/release.yaml");
    let both = vec![a, b];
    match resolve("release", &both) {
        Choice::Existing(found) => assert_eq!(found.path, ".github/workflows/release.yml"),
        _ => panic!("both workflows answer to the slug"),
    }
}

#[test]
fn the_required_prompt_offers_the_workflows_then_a_template() {
    let ws = vec![
        parse(".github/workflows/prepare-release.yml", "🚢 Prepare Release", "workflow_dispatch"),
        parse(".github/workflows/ci.yml", "ci", "workflow_dispatch"),
    ];
    assert_eq!(
        pairs(&required_options("prepare-release", &ws)),
        vec![
            ("prepare-release".to_string(), "prepare-release (🚢 Prepare Release)".to_string()),
            ("ci".to_string(), "ci".to_string()),
            (GENERATE.to_string(), "Generate a new prepare-release.yml from a template".to_string()),
        ]
    );
}

#[test]
fn the_optional_prompt_leads_with_skip_when_nothing_conforms() {
    assert_eq!(
        pairs(&optional_options("publish-release", &[])),
        vec![
            (SKIP.to_string(), "Skip — I don't publish assets".to_string()),
            (GENERATE.to_string(), "Generate a new publish-release.yml from a template".to_string()),
        ]
    );
    let ws = vec![parse(".github/workflows/build.yml", "build", "workflow_dispatch")];
    assert_eq!(
        pairs(&optional_options("publish-release", &ws)),
        vec![
            ("build".to_string(), "build".to_string()),
            (GENERATE.to_string(), "Generate a new publish-release.yml from a template".to_string()),
            (SKIP.to_string(), "Skip — I don't publish assets".to_string()),
        ]
    );
}

#[test]
fn the_token_prompt_values_map_to_strategies() {
    assert_eq!(strategy_of("app"), TokenStrategy::App);
    assert_eq!(strategy_of("default"), TokenStrategy::Default);
    assert_eq!(strategy_of("pat"), TokenStrategy::Pat);
    assert_eq!(strategy_of("anything else"), TokenStrategy::Pat);
}

#[test]
fn unusable_workflows_are_explained_one_violation_per_line() {
    let t = Theme::plain();
    let call_only = parse(".github/workflows/reusable.yml", "reusable", "workflow_call");
    let push_only = parse(".github/workflows/ci.yml", "ci", "push");
    let lines = nonconforming_lines(&[call_only, push_only], &t);
    assert_eq!(
        lines,
        vec![
            "".to_string(),
            "⚠ 1 workflow cannot be used by gh-ship yet:".to_string(),
            "  reusable: does not declare `on: workflow_dispatch`".to_string(),
            "  reusable: does not declare a `ship_id` input".to_string(),
            "  reusable: does not stamp `ship_id` into its `run-name`".to_string(),
            "- run `gh ship validate` after setup for the full explanation".to_string(),
            "".to_string(),
        ]
    );
}

#[test]
fn nothing_is_said_when_no_workflow_could_be_started() {
    let t = Theme::plain();
    let push_only = parse(".github/workflows/ci.yml", "ci", "push");
    assert!(nonconforming_lines(&[push_only], &t).is_empty());
    assert!(nonconforming_lines(&[], &t).is_empty());
}

#[test]
fn several_unusable_workflows_take_the_plural() {
    let t = Theme::plain();
    let a = parse(".github/workflows/a.yml", "a", "workflow_dispatch");
    let b = parse(".github/workflows/b.yml", "b", "workflow_call");
    let lines = nonconforming_lines(&[a, b], &t);
    assert_eq!(lines[1], "⚠ 2 workflows cannot be used by gh-ship yet:");
}

#[test]
fn steps_notes_and_links_have_a_fixed_layout() {
    let t = Theme::plain();
    assert_eq!(logger::step(&t, 2, &["first", "second"]), "  2. first\n     second");
    assert_eq!(logger::note(&t, &["one", "two"]), "  one\n  two");
    assert_eq!(logger::note(&t, &[]), "");
    assert_eq!(logger::note_url(&t, "https://example.com"), "  https://example.com");
}

#[test]
fn the_next_steps_open_with_a_rule_and_close_with_a_blank_line() {
    let t = Theme::plain();
    let text = next_steps(t, false, TokenStrategy::Default);
    assert!(text.starts_with("\n── Next steps "), "{text:?}");
    assert!(text.ends_with("\n"), "{text:?}");
    assert!(text.contains("  1. Edit the generated workflow"), "{text}");
    assert!(text.contains("⚠ the Release PR will not run your CI"), "{text}");
}
