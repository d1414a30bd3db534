use gh_ship::artifact::validate::{line_col_to_span, validate_str, ArtifactError};

fn err(text: &str) -> ArtifactError {
    validate_str("ship.release.json", text).unwrap_err()
}

#[test]
fn accepts_minimal_unchanged_artifact() {
    let a = validate_str("t.json", r#"{"schemaVersion":1,"changed":false}"#).unwrap();
    assert!(!a.changed);
}

#[test]
fn accepts_full_changed_artifact() {
    let a = validate_str(
        "t.json",
        r###"{
            "$schema": "https://noirbizarre.github.io/gh-ship/schema/release/v1.json",
            "schemaVersion": 1,
            "changed": true,
            "version": "1.4.0",
            "tag": "v1.4.0",
            "release": {"name": "Release v1.4.0", "notes": "## Notes", "prerelease": false},
            "pull_request": {"title": "Release v1.4.0", "labels": ["release"]}
        }"###,
    )
    .unwrap();
    assert_eq!(a.version(), Some("1.4.0"));
    assert_eq!(a.tag(), Some("v1.4.0"));
}

#[test]
fn allows_x_extensions_everywhere() {
    validate_str(
        "t.json",
        r#"{"schemaVersion":1,"changed":true,"version":"1","tag":"v1",
            "x-tool":"my-tool","release":{"x-internal":42}}"#,
    )
    .expect("x- prefixed fields are reserved for third-party tools");
}

#[test]
fn rejects_syntax_error_with_position() {
    let e = err("{\"schemaVersion\": 1,\n \"changed\": tru}");
    assert!(matches!(e, ArtifactError::Json { .. }), "got {e:?}");
}

#[test]
fn rejects_future_schema_version_with_upgrade_hint() {
    let e = err(r#"{"schemaVersion":2,"changed":false}"#);
    let ArtifactError::UnsupportedVersion { help, found, .. } = &e else {
        panic!("expected UnsupportedVersion, got {e:?}");
    };
    assert_eq!(found, "2");
    assert!(help.contains("Upgrade gh-ship"), "{help}");
}

#[test]
fn rejects_non_integer_schema_version() {
    let e = err(r#"{"schemaVersion":"1","changed":false}"#);
    assert!(
        matches!(e, ArtifactError::UnsupportedVersion { .. }),
        "got {e:?}"
    );
}

#[test]
fn requires_version_and_tag_when_changed() {
    let e = err(r#"{"schemaVersion":1,"changed":true}"#);
    let rendered = e.render_plain();
    assert!(rendered.contains("`version`"), "{rendered}");
    assert!(rendered.contains("`tag`"), "{rendered}");
    assert!(
        rendered.contains("set `changed: false`"),
        "help must explain the changed/version relationship: {rendered}"
    );
}

#[test]
fn does_not_require_version_when_unchanged() {
    validate_str("t.json", r#"{"schemaVersion":1,"changed":false}"#).unwrap();
}

#[test]
fn reports_missing_required_root_fields() {
    let e = err("{}");
    let r = e.render_plain();
    assert!(r.contains("schemaVersion"), "{r}");
    assert!(r.contains("changed"), "{r}");
}

#[test]
fn rejects_unknown_field_and_suggests_correction() {
    let e = err(r#"{"schemaVersion":1,"changed":false,"tags":"v1"}"#);
    let r = e.render_plain();
    assert!(r.contains("unknown field"), "{r}");
    assert!(
        r.contains("did you mean `tag`?"),
        "typo suggestion missing: {r}"
    );
}

#[test]
fn unknown_field_without_close_match_explains_x_prefix() {
    let e = err(r#"{"schemaVersion":1,"changed":false,"wibble":1}"#);
    let r = e.render_plain();
    assert!(r.contains("x-"), "{r}");
}

#[test]
fn rejects_wrong_types_with_readable_message() {
    let e = err(r#"{"schemaVersion":1,"changed":"yes"}"#);
    let r = e.render_plain();
    assert!(r.contains("must be boolean"), "{r}");
    assert!(r.contains("but is string"), "{r}");
}

#[test]
fn rejects_tag_with_whitespace() {
    let e = err(r#"{"schemaVersion":1,"changed":true,"version":"1.0","tag":"v1 0"}"#);
    let r = e.render_plain();
    assert!(r.contains("cannot contain whitespace"), "{r}");
}

#[test]
fn rejects_empty_version() {
    let e = err(r#"{"schemaVersion":1,"changed":true,"version":"","tag":"v1"}"#);
    let r = e.render_plain();
    assert!(r.contains("must not be empty"), "{r}");
}

#[test]
fn rejects_duplicate_labels() {
    let e = err(r#"{"schemaVersion":1,"changed":false,"pull_request":{"labels":["a","a"]}}"#);
    let r = e.render_plain();
    assert!(r.contains("duplicate"), "{r}");
}

#[test]
fn collects_multiple_problems_at_once() {
    let e = err(r#"{"schemaVersion":1,"changed":true,"bogus":1}"#);
    assert!(
        e.problem_count() >= 2,
        "validation must not stop at the first error: {}",
        e.render_plain()
    );
}

#[test]
fn long_strings_are_truncated_in_messages() {
    let long = "x".repeat(500);
    let e = err(&format!(
        r#"{{"schemaVersion":1,"changed":true,"version":"1.0","tag":"{long} y"}}"#
    ));
    let r = e.render_plain();
    assert!(
        r.len() < 400,
        "a huge value must not flood the message: {}",
        r.len()
    );
}

#[test]
fn line_col_maps_to_offset() {
    let text = "abc\ndefg\nhi";
    let s = line_col_to_span(text, 2, 3);
    assert_eq!(&text[s.offset()..s.offset() + s.len()], "f");
}

#[test]
fn unknown_field_is_pointed_at_by_its_key() {
    let text = "{\n  \"schemaVersion\": 1,\n  \"changed\": false,\n  \"tags\": \"v1\"\n}";
    let ArtifactError::Invalid { issues, .. } = err(text) else {
        panic!("expected Invalid");
    };
    let span = issues[0].span;
    assert_eq!(&text[span.offset()..span.offset() + span.len()], "\"tags\"");
    assert_eq!(issues[0].label, "not allowed here");
}

#[test]
fn an_outdated_schema_version_says_to_regenerate() {
    let e = err(r#"{"schemaVersion":0,"changed":false}"#);
    let ArtifactError::UnsupportedVersion { help, found, .. } = &e else {
        panic!("expected UnsupportedVersion, got {e:?}");
    };
    assert_eq!(found, "0");
    assert_eq!(
        help,
        "protocol v0 is no longer supported; regenerate the artifact with `schemaVersion: 1`"
    );
}

#[test]
fn error_summaries_count_their_problems() {
    let e = err(r#"{"schemaVersion":1,"changed":"yes"}"#);
    assert_eq!(e.problem_count(), 1);
    assert_eq!(
        e.message(),
        "`ship.release.json` is not a valid release artifact (1 problem)"
    );
    let j = err("nope");
    assert_eq!(j.problem_count(), 1);
    assert!(j.message().starts_with("invalid JSON in `ship.release.json`: "));
}

#[test]
fn line_zero_and_lines_past_the_end() {
    assert_eq!(line_col_to_span("abc", 0, 5), gh_ship::artifact::span::Span::new(0, 0));
    assert_eq!(line_col_to_span("abc\n", 9, 1), gh_ship::artifact::span::Span::new(3, 1));
    assert_eq!(line_col_to_span("abc", 1, 99), gh_ship::artifact::span::Span::new(3, 1));
}
