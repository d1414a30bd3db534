//! The embedded release artifact schema, and what a validator reports
//! against it.
//!
//! The schema ships inside the library so that validation never touches
//! the network. Validation itself is `boon`'s: its error tree is held here
//! as plain values ([`SchemaError`]) for the diagnostics to read.

use vstd::prelude::*;

use boon::ErrorKind;

use super::json::{from_value, to_value, Json};

verus! {

/// The v1 schema source.
pub const RELEASE_V1: &'static str = r###"{
  "$schema": "https://json-schema.org/draft/2020-12/schema",
  "$id": "https://noirbizarre.github.io/gh-ship/schema/release/v1.json",
  "title": "GH Ship release artifact",
  "description": "What a workflow tells GH Ship to release, uploaded as `ship.release.json` in the `ship-release` artifact.",
  "type": "object",
  "required": ["schemaVersion", "changed"],
  "properties": {
    "$schema": {
      "description": "Editor metadata; ignored by GH Ship.",
      "type": "string"
    },
    "schemaVersion": {
      "description": "Protocol version. Authoritative.",
      "type": "integer",
      "const": 1
    },
    "changed": {
      "description": "Whether there is anything to release.",
      "type": "boolean"
    },
    "version": {
      "description": "The version being released. Never parsed.",
      "type": "string",
      "minLength": 1,
      "pattern": "^\\S(.*\\S)?$"
    },
    "tag": {
      "description": "The git tag to create.",
      "type": "string",
      "minLength": 1,
      "pattern": "^\\S+$"
    },
    "release": {
      "description": "GitHub Release content.",
      "type": "object",
      "properties": {
        "name": { "type": "string" },
        "notes": { "type": "string" },
        "prerelease": { "type": "boolean" },
        "make_latest": { "type": "boolean" }
      },
      "patternProperties": { "^x-": {} },
      "additionalProperties": false
    },
    "pull_request": {
      "description": "Release pull request overrides.",
      "type": "object",
      "properties": {
        "title": { "type": "string" },
        "body": { "type": "string" },
        "labels": {
          "type": "array",
          "items": { "type": "string" },
          "uniqueItems": true
        }
      },
      "patternProperties": { "^x-": {} },
      "additionalProperties": false
    }
  },
  "patternProperties": { "^x-": {} },
  "additionalProperties": false,
  "if": {
    "properties": { "changed": { "const": true } },
    "required": ["changed"]
  },
  "then": { "required": ["version", "tag"] },
  "else": { "properties": { "version": false, "tag": false } },
  "examples": [
    {
      "$schema": "https://noirbizarre.github.io/gh-ship/schema/release/v1.json",
      "schemaVersion": 1,
      "changed": true,
      "version": "2024-06-01",
      "tag": "release-2024-06-01",
      "release": {
        "name": "Release 2024-06-01",
        "notes": "## What's Changed\n\n* Add `gh ship preview`\n",
        "prerelease": false,
        "make_latest": true
      },
      "pull_request": { "title": "Release 2024-06-01", "labels": ["release"] }
    },
    {
      "schemaVersion": 1,
      "changed": true,
      "version": "7",
      "tag": "v7",
      "x-generator": "my-release-tool",
      "release": { "x-commit-count": 42 }
    },
    { "schemaVersion": 1, "changed": false }
  ]
}
"###;

/// What one schema violation is about, as the validator classifies it.
#[derive(Debug)]
pub enum SchemaIssue {
    /// Required properties are missing.
    Required { want: Vec<String> },
    /// Properties that the schema does not allow.
    AdditionalProperties { got: Vec<String> },
    /// A value of the wrong type: its type and the allowed ones, by name.
    Type { got: String, want: Vec<String> },
    /// A value other than the one constant allowed.
    Const { want: Json },
    /// A string shorter than allowed.
    MinLength { want: usize },
    /// A string that does not match its pattern.
    Pattern { got: String },
    /// Two equal items, by index.
    UniqueItems { first: usize, second: usize },
    /// Anything else; the validator's own wording is in the error.
    Other,
}

/// One node of the validator's error tree.
#[derive(Debug)]
pub struct SchemaError {
    /// Where in the document, as a JSON pointer.
    pub pointer: String,
    pub kind: SchemaIssue,
    /// The validator's own wording of `kind`.
    pub kind_text: String,
    /// Nested errors; a node without causes is a leaf.
    pub causes: Vec<SchemaError>,
}

#[verifier::external_type_specification]
#[verifier::external_body]
pub struct ExValidationError<'s, 'v>(boon::ValidationError<'s, 'v>);

/// What `boon` reports when it validates `doc` against the schema whose
/// source is `schema`, registered under `url`: `Err` with the reason when
/// the schema does not read or compile, else the error tree, `None` when
/// the document is valid.
pub uninterp spec fn schema_verdict(url: Seq<char>, schema: Seq<char>, doc: Json) -> Result<Option<SchemaError>, Seq<char>>;

#[verifier::external_type_specification]
#[verifier::external_body]
pub struct ExErrorKind<'s, 'v>(boon::ErrorKind<'s, 'v>);

/// A `boon` error kind about a set of names or types, held as plain
/// values.
#[verifier::external_body]
fn issue_of(kind: &ErrorKind) -> SchemaIssue {
    match kind {
        ErrorKind::Required { want } => SchemaIssue::Required { want: want.iter().map(|w| w.to_string()).collect() },
        ErrorKind::AdditionalProperties { got } => SchemaIssue::AdditionalProperties { got: got.iter().map(|g| g.to_string()).collect() },
        ErrorKind::Type { got, want } => SchemaIssue::Type { got: got.to_string(), want: want.iter().map(|t| t.to_string()).collect() },
        _ => scalar_issue_of(kind),
    }
}

/// The kinds about one value, held as plain values.
#[verifier::external_body]
fn scalar_issue_of(kind: &ErrorKind) -> SchemaIssue {
    match kind {
        ErrorKind::Const { want } => SchemaIssue::Const { want: from_value(want) },
        ErrorKind::MinLength { want, .. } => SchemaIssue::MinLength { want: *want },
        ErrorKind::Pattern { got, .. } => SchemaIssue::Pattern { got: got.to_string() },
        ErrorKind::UniqueItems { got } => SchemaIssue::UniqueItems { first: got[0], second: got[1] },
        _ => SchemaIssue::Other,
    }
}

/// A `boon` error tree held as plain values.
#[verifier::external_body]
fn from_boon(e: &boon::ValidationError) -> SchemaError {
    let causes = e.causes.iter().map(from_boon).collect();
    SchemaError { pointer: e.instance_location.to_string(), kind: issue_of(&e.kind), kind_text: e.kind.to_string(), causes }
}

/// Validate a document with `boon` against the schema whose source is
/// `schema`, registered as the resource `url`: the schema is read with
/// `serde_json` and compiled on each call. `Err` carries the reason the
/// schema itself was refused; `Ok(Err(..))` the document's error tree.
#[verifier::external_body]
pub fn validate(url: &str, schema: &str, value: &Json) -> (r: Result<Result<(), SchemaError>, String>)
    ensures
        match schema_verdict(url@, schema@, *value) {
            Err(m) => r matches Err(x) && x@ == m,
            Ok(Some(e)) => r matches Ok(Err(x)) && x == e,
            Ok(None) => r matches Ok(Ok(())),
        },
{
    let source: serde_json::Value = serde_json::from_str(schema).map_err(|e| e.to_string())?;
    let (mut schemas, mut compiler) = (boon::Schemas::new(), boon::Compiler::new());
    compiler.add_resource(url, source).map_err(|e| e.to_string())?;
    let index = compiler.compile(url, &mut schemas).map_err(|e| e.to_string())?;
    Ok(schemas.validate(&to_value(value), index).map_err(|e| from_boon(&e)))
}

} // verus!
