use gh_ship::gh::workflow::{analyse_triggers, find, from_document, Violation, Workflow, Yaml};

fn s(x: &str) -> Yaml {
    Yaml::Str(x.into())
}

fn map(entries: Vec<(Yaml, Yaml)>) -> Yaml {
    Yaml::Mapping(entries)
}

fn inputs(names: &[&str]) -> Yaml {
    map(vec![(
        s("inputs"),
        map(names.iter().map(|n| (s(n), map(vec![(s("type"), s("string"))]))).collect()),
    )])
}

fn conforming() -> Workflow {
    let on = map(vec![
        (s("workflow_dispatch"), inputs(&["ship_id", "dry_run"])),
        (s("workflow_call"), inputs(&["ship_id"])),
    ]);
    from_document(
        ".github/workflows/prepare.yml",
        Some("prepare-release".into()),
        Some("prepare-release (ship:${{ inputs.ship_id }})".into()),
        &Some(on),
    )
}

#[test]
fn conforming_workflow_has_no_violations() {
    let w = conforming();
    assert_eq!(w.name, "prepare-release");
    assert!(w.dispatchable);
    assert!(w.callable);
    assert!(w.accepts_ship_id());
    assert!(w.accepts_dry_run());
    assert!(w.correlates());
    assert_eq!(w.contract_violations(), vec![]);
    assert_eq!(w.id(), "prepare.yml");
    assert_eq!(w.inputs, vec!["dry_run", "ship_id"], "sorted and deduplicated");
}

#[test]
fn call_only_workflow_is_not_dispatchable() {
    let on = map(vec![(s("workflow_call"), inputs(&["ship_id"]))]);
    let w = from_document("w.yml", Some("x".into()), None, &Some(on));
    assert!(!w.dispatchable);
    assert!(w.callable);
    assert!(w.contract_violations().contains(&Violation::NotDispatchable));
}

#[test]
fn detects_missing_run_name_correlation() {
    let on = map(vec![(s("workflow_dispatch"), inputs(&["ship_id"]))]);
    let w = from_document("w.yml", Some("x".into()), Some("just a name".into()), &Some(on));
    assert!(!w.correlates());
    assert_eq!(w.contract_violations(), vec![Violation::MissingRunName]);
}

#[test]
fn detects_missing_ship_id_input() {
    let on = map(vec![(s("workflow_dispatch"), Yaml::Null)]);
    let w = from_document("w.yml", Some("x".into()), Some("x (ship:${{ inputs.ship_id }})".into()), &Some(on));
    assert!(!w.accepts_ship_id());
    assert!(w.contract_violations().contains(&Violation::MissingShipIdInput));
}

#[test]
fn handles_bare_string_trigger() {
    let w = from_document(".github/workflows/prepare.yml", Some("x".into()), None, &Some(s("workflow_dispatch")));
    assert!(w.dispatchable);
    assert!(w.inputs.is_empty());
}

#[test]
fn handles_sequence_trigger() {
    let (d, c, _) = analyse_triggers(&Some(Yaml::Sequence(vec![s("push"), s("workflow_dispatch")])));
    assert!(d && !c);
}

/// The YAML reader hands over the `on:` value whichever way the key was
/// spelled (`on`, or YAML 1.1's `true`), so a mapping under it is read
/// the same.
#[test]
fn handles_yaml_1_1_on_parsed_as_boolean_true() {
    let on = map(vec![(s("workflow_dispatch"), inputs(&["ship_id"]))]);
    let w = from_document("w.yml", Some("x".into()), None, &Some(on));
    assert!(w.dispatchable);
}

#[test]
fn name_falls_back_to_filename() {
    let w = from_document(".github/workflows/release.yaml", None, None, &Some(s("push")));
    assert_eq!(w.name, "release");
}

#[test]
fn workflow_without_triggers_is_inert() {
    let w = from_document(".github/workflows/prepare.yml", Some("x".into()), None, &None);
    assert!(!w.dispatchable);
    assert!(!w.callable);
}

#[test]
fn tagged_and_non_string_keys_are_not_triggers() {
    let on = map(vec![
        (Yaml::Tagged("!t".into(), Box::new(s("workflow_dispatch"))), Yaml::Null),
        (Yaml::Bool(true), Yaml::Null),
        (s("workflow_call"), map(vec![(s("inputs"), map(vec![(Yaml::Number("1".into()), Yaml::Null), (s("b"), Yaml::Null), (s("a"), Yaml::Null), (s("b"), Yaml::Null)]))])),
    ]);
    let (d, c, i) = analyse_triggers(&Some(on));
    assert!(!d && c);
    assert_eq!(i, vec!["a", "b"]);
}

#[test]
fn find_matches_name_filename_and_stem() {
    let workflows = vec![conforming()];
    assert!(find(&workflows, "prepare-release").is_some());
    assert!(find(&workflows, "prepare.yml").is_some());
    assert!(find(&workflows, "prepare").is_some());
    assert!(find(&workflows, "nope").is_none());
}

#[test]
fn violations_explain_the_reusable_workflow_trap() {
    let help = Violation::NotDispatchable.help();
    assert!(help.contains("workflow_call"), "{help}");
    assert!(help.contains("reusable"), "{help}");
}

#[test]
fn to_ref_carries_the_file_name_and_slug() {
    let r = conforming().to_ref();
    assert_eq!(r.id, "prepare.yml");
    assert_eq!(r.slug, "prepare");
}
