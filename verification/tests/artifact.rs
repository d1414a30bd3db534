use gh_ship::artifact::codec::{artifact_from_json, artifact_to_string};
use gh_ship::artifact::json::{parse_json, Json};
use gh_ship::artifact::schema::{validate, RELEASE_V1};
use gh_ship::artifact::{Artifact, SCHEMA_URL};

fn artifact(text: &str) -> Artifact {
    artifact_from_json(&parse_json(text).unwrap()).unwrap()
}

#[test]
fn unchanged_artifact_round_trips_minimally() {
    let json = r#"{"schemaVersion":1,"changed":false}"#;
    let a = artifact(json);
    assert_eq!(a.schema_version, 1);
    assert!(!a.changed);
    assert_eq!(a.tag(), None);
    assert_eq!(artifact_to_string(&a), json);
}

#[test]
fn release_name_falls_back_to_tag() {
    let a = artifact(r#"{"schemaVersion":1,"changed":true,"version":"1.0.0","tag":"v1.0.0"}"#);
    assert_eq!(a.release_name(), Some("v1.0.0"));
    assert_eq!(a.notes(), "");
    assert!(!a.is_prerelease());
    assert_eq!(a.make_latest(), None);
}

#[test]
fn explicit_release_fields_win() {
    let a = artifact(
        r#"{"schemaVersion":1,"changed":true,"version":"1.0.0","tag":"v1.0.0",
            "release":{"name":"Big One","notes":"stuff","prerelease":true,
                       "make_latest":false}}"#,
    );
    assert_eq!(a.release_name(), Some("Big One"));
    assert_eq!(a.notes(), "stuff");
    assert!(a.is_prerelease());
    assert_eq!(a.make_latest(), Some(false));
}

#[test]
fn embedded_schema_compiles() {
    let v = parse_json(r#"{"schemaVersion":1,"changed":false}"#).unwrap();
    assert!(matches!(validate(SCHEMA_URL, RELEASE_V1, &v), Ok(Ok(()))));
}

#[test]
fn schema_id_matches_published_url() {
    let v: serde_json::Value = serde_json::from_str(RELEASE_V1).unwrap();
    assert_eq!(v["$id"].as_str(), Some(SCHEMA_URL));
}

#[test]
fn schema_declares_2020_12() {
    let v: serde_json::Value = serde_json::from_str(RELEASE_V1).unwrap();
    assert_eq!(v["$schema"].as_str(), Some("https://json-schema.org/draft/2020-12/schema"));
}

#[test]
fn documented_examples_validate() {
    let v: serde_json::Value = serde_json::from_str(RELEASE_V1).unwrap();
    let examples = v["examples"].as_array().expect("schema has examples");
    assert!(!examples.is_empty());
    for (i, ex) in examples.iter().enumerate() {
        let doc: Json = parse_json(&ex.to_string()).unwrap();
        assert!(matches!(validate(SCHEMA_URL, RELEASE_V1, &doc), Ok(Ok(()))), "schema example {i} does not validate against its own schema");
    }
}
