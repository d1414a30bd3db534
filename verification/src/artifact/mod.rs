//! The `ship.release.json` artifact — gh-ship's public protocol.
//!
//! Validation is entirely local: the schema is embedded and nothing here
//! touches the network or a repository.

pub mod codec;
pub mod json;
pub mod model;
pub mod schema;
pub mod span;
pub mod validate;

pub use model::{Artifact, PullRequest, Release};

use vstd::prelude::*;

verus! {

/// The protocol version this build of gh-ship speaks.
pub const SCHEMA_VERSION: u32 = 1;

/// Canonical URL of the v1 schema.
pub const SCHEMA_URL: &'static str = "https://noirbizarre.github.io/gh-ship/schema/release/v1.json";

/// The artifact name a workflow must upload.
pub const ARTIFACT_NAME: &'static str = "ship-release";

/// The filename inside that artifact.
pub const ARTIFACT_FILE: &'static str = "ship.release.json";

} // verus!
