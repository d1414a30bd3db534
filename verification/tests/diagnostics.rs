use gh_ship::artifact::schema::{validate, RELEASE_V1};
use gh_ship::artifact::validate::{validate_str, ArtifactError};
use gh_ship::artifact::span::Span;
use gh_ship::artifact::json::Json;
use gh_ship::artifact::SCHEMA_URL;
use gh_ship::commands::init::InitError;
use gh_ship::config::ConfigError;
use gh_ship::gh::cli::GhError;
use gh_ship::gh::run::RunError;

#[test]
fn a_schema_that_does_not_read_is_reported_not_panicked_on() {
    let doc = Json::Object(vec![]);
    assert!(validate(SCHEMA_URL, "not a schema", &doc).is_err());
    assert!(matches!(validate(SCHEMA_URL, RELEASE_V1, &doc), Ok(Err(_))), "the v1 schema requires members");
}

#[test]
fn artifact_errors_carry_codes_help_and_labels() {
    let e = validate_str("a.json", "{ nope").unwrap_err();
    assert_eq!(e.code(), "ship::artifact::json");
    assert!(e.help().unwrap().contains("trailing commas"));
    assert_eq!(e.label().unwrap().1, "here");

    let e = validate_str("a.json", r#"{"schemaVersion":1}"#).unwrap_err();
    assert_eq!(e.code(), "ship::artifact::invalid");
    assert_eq!(
        e.help().as_deref(),
        Some("see https://noirbizarre.github.io/gh-ship/specifications/release-artifact/")
    );
    assert!(e.label().is_none());

    let io = ArtifactError::Io { path: "x".into(), message: "gone".into() };
    assert_eq!(io.code(), "ship::artifact::io");
    assert_eq!(ArtifactError::Schema { message: "m".into() }.code(), "ship::artifact::schema");
}

#[test]
fn config_errors_carry_codes_help_and_labels() {
    let missing = ConfigError::Missing { path: ".github/ship.yml".into() };
    assert_eq!(missing.code(), "ship::config::missing");
    assert_eq!(missing.help().as_deref(), Some("run `gh ship init` to create one — it takes less than a minute"));
    assert!(missing.label().is_none());

    let version = ConfigError::UnsupportedVersion { found: 2, span: Span::new(9, 1) };
    assert_eq!(version.code(), "ship::config::version");
    assert_eq!(version.help().as_deref(), Some("set `version: 1` at the top of the file"));
    let (span, label) = version.label().unwrap();
    assert_eq!((span.offset, span.len, label), (9, 1, "unsupported"));

    let dup = ConfigError::DuplicateBranch { entry: "main".into(), span: Span::new(0, 4) };
    assert_eq!(dup.code(), "ship::config::duplicate_branch");
    assert_eq!(dup.label().unwrap().1, "duplicate");
}

#[test]
fn gh_and_run_errors_carry_codes() {
    assert_eq!(GhError::NotFound.code(), "ship::gh::missing");
    assert_eq!(GhError::NotAuthenticated.code(), "ship::gh::auth");
    assert_eq!(GhError::NoRepository.code(), "ship::gh::no_repo");
    assert_eq!(RunError::Gh(GhError::NotAuthenticated).code(), "ship::gh::auth");
    let t = RunError::Timeout { workflow: "w".into(), timeout_secs: 1, url: "u".into() };
    assert_eq!(t.code(), "ship::run::timeout");
    assert_eq!(InitError::NotInteractive.code(), "ship::init::not_interactive");
}

#[test]
fn short_tokens_are_twelve_lowercase_hex_digits() {
    let t = gh_ship::gh::short_token();
    assert_eq!(t.len(), 12);
    assert!(t.chars().all(|c| c.is_ascii_hexdigit() && !c.is_ascii_uppercase()), "{t}");
    assert_ne!(t, gh_ship::gh::short_token(), "each token is fresh");
}
