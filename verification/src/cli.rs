//! The command-line surface, as plain values.
//!
//! The binary parses the arguments (flags, defaults and environment
//! fallbacks) and hands the library these.

use vstd::prelude::*;

verus! {

/// Default configuration path, relative to the repository root.
pub const DEFAULT_CONFIG: &'static str = ".github/ship.yml";

/// The global options and the chosen subcommand.
#[derive(Debug, Clone)]
pub struct Cli {
    /// Path to the configuration file.
    pub config: String,
    /// Repository in `OWNER/REPO` format; the current one when absent.
    pub repo: Option<String>,
    /// How many times `--verbose` was given.
    pub verbose: u8,
    pub command: Command,
}

#[derive(Debug, Clone)]
pub enum Command {
    /// Make this repository gh-ship enabled.
    Init(InitArgs),
    /// Check the configuration, or a release artifact.
    Validate(ValidateArgs),
    /// Dry-run the prepare workflow and show the Release PR it would produce.
    Preview(PreviewArgs),
    /// Run the prepare workflow and open or update the Release PR.
    Prepare(PrepareArgs),
    /// Show where the current release stands.
    Status(StatusArgs),
    /// Tag, publish and release the merged Release PR.
    Release(ReleaseArgs),
}

/// The base branch to release from: accepted by the lifecycle commands
/// only, since a flag that is silently ignored is worse than one that is
/// refused.
#[derive(Debug, Clone)]
pub struct BaseArgs {
    pub base: Option<String>,
}

#[derive(Debug, Clone)]
pub struct ReleaseArgs {
    /// Merge the Release PR if it is still open.
    pub merge: bool,
    pub base: BaseArgs,
}

#[derive(Debug, Clone)]
pub struct PrepareArgs {
    /// Dispatch the workflow but do not wait for it to finish.
    pub no_wait: bool,
    pub base: BaseArgs,
}

#[derive(Debug, Clone)]
pub struct StatusArgs {
    /// Emit machine-readable JSON.
    pub json: bool,
    pub base: BaseArgs,
}

#[derive(Debug, Clone)]
pub struct PreviewArgs {
    /// Emit the artifact and rendered PR as JSON.
    pub json: bool,
    pub base: BaseArgs,
}

#[derive(Debug, Clone)]
pub struct InitArgs {
    /// Overwrite an existing configuration.
    pub force: bool,
}

#[derive(Debug, Clone)]
pub struct ValidateArgs {
    /// A `ship.release.json` artifact to validate; the setup when absent.
    pub artifact: Option<String>,
}

} // verus!
