use gh_ship::commands::validate::{check_workflow, legacy_input_line, workflow_line};
use gh_ship::gh::workflow::{from_document, Workflow, Yaml};
use gh_ship::style::Theme;

fn s(x: &str) -> Yaml {
    Yaml::Str(x.into())
}

/// `on: {trigger: {inputs: {name: {...}}}}` for each input name.
fn on(trigger: &str, inputs: &[&str]) -> Option<Yaml> {
    let declared = inputs.iter().map(|n| (s(n), Yaml::Mapping(vec![(s("required"), Yaml::Bool(false))]))).collect();
    Some(Yaml::Mapping(vec![(s(trigger), Yaml::Mapping(vec![(s("inputs"), Yaml::Mapping(declared))]))]))
}

fn workflow(file: &str, run_name: Option<&str>, on: Option<Yaml>) -> Workflow {
    from_document(&format!(".github/workflows/{file}"), Some("prepare-release".into()), run_name.map(str::to_string), &on)
}

#[test]
fn accepts_a_workflow_without_run_name_or_ship_id() {
    let plain = workflow("prepare-release.yml", None, on("workflow_dispatch", &["dry_run"]));
    let available = vec![plain];
    assert!(check_workflow(&available, "prepare-release", "prepare").is_empty());
    assert!(legacy_input_line(&available, "prepare-release", &Theme::plain()).is_none());
    assert_eq!(
        workflow_line(&available, "prepare-release", "prepare", &Theme::plain()).as_deref(),
        Some("  prepare: prepare-release")
    );
}

#[test]
fn reports_but_tolerates_a_leftover_ship_id_input() {
    let legacy = workflow(
        "prepare-release.yml",
        Some("prepare-release (ship:${{ inputs.ship_id }})"),
        on("workflow_dispatch", &["ship_id", "dry_run"]),
    );
    let available = vec![legacy];
    assert!(check_workflow(&available, "prepare-release", "prepare").is_empty(), "a retired input must not fail validation");
    let note = legacy_input_line(&available, "prepare-release", &Theme::plain()).expect("the input is reported");
    assert!(note.contains("ship_id"), "{note}");
    assert!(note.contains("no longer sends it"), "the user must be told it is safe to delete: {note}");
}

#[test]
fn rejects_a_workflow_call_only_workflow() {
    let call_only = workflow("prepare-release.yml", None, on("workflow_call", &["dry_run"]));
    let issues = check_workflow(&[call_only], "prepare-release", "prepare");
    assert_eq!(issues.len(), 1);
    let text = format!("{} {}", issues[0].message(), issues[0].help.as_deref().unwrap_or(""));
    assert!(text.contains("workflow_dispatch"), "{text}");
    assert!(text.contains("reusable"), "the message must connect `workflow_call` to the word users know: {text}");
}

#[test]
fn validates_the_publish_workflow_too() {
    let broken_publish = from_document(
        ".github/workflows/publish-release.yml",
        Some("publish-release".into()),
        None,
        &Some(Yaml::Mapping(vec![(s("workflow_call"), Yaml::Null)])),
    );
    let issues = check_workflow(&[broken_publish], "publish-release", "publish");
    assert_eq!(issues.len(), 1, "a publish workflow needs no dry_run, but must be dispatchable");
    // Reported by slug, not filename: that is what the config refers to.
    assert_eq!(issues[0].workflow, "publish-release");
}
