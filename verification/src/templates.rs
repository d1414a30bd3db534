//! The workflow templates `gh ship init` writes: which file each role
//! goes to, and the token strategy the templates branch on.

use vstd::prelude::*;

verus! {

/// The two workflows gh-ship dispatches.
#[derive(Debug, Clone, Copy, PartialEq, Eq, Structural)]
pub enum Role {
    Prepare,
    Publish,
}

impl Role {
    /// The key the role is configured under, in `workflows:`.
    pub fn key(self) -> (r: &'static str)
        ensures
            r@ == match self {
                Role::Prepare => "prepare"@,
                Role::Publish => "publish"@,
            },
    {
        match self {
            Role::Prepare => "prepare",
            Role::Publish => "publish",
        }
    }
}

/// Which token the generated workflows authenticate with.
///
/// The one decision `init` cannot make on the user's behalf, and the one
/// whose consequences are least visible: with [`TokenStrategy::Default`]
/// everything works except CI running on the Release PR.
#[derive(Debug, Clone, Copy, PartialEq, Eq, Structural)]
pub enum TokenStrategy {
    /// Mint an installation token in the job with
    /// `actions/create-github-app-token`.
    App,
    /// A personal access token, stored as the `SHIP_TOKEN` secret.
    Pat,
    /// `GITHUB_TOKEN`, which cannot trigger other workflows.
    Default,
}

impl TokenStrategy {
    /// The value the templates branch on.
    pub fn as_str(self) -> (r: &'static str)
        ensures
            r@ == match self {
                TokenStrategy::App => "app"@,
                TokenStrategy::Pat => "pat"@,
                TokenStrategy::Default => "default"@,
            },
    {
        match self {
            TokenStrategy::App => "app",
            TokenStrategy::Pat => "pat",
            TokenStrategy::Default => "default",
        }
    }
}

/// The file name `init` writes a role's template to. Workflow discovery
/// keys off the file stem, so the extension is a choice.
pub fn filename(role: Role) -> (r: &'static str)
    ensures
        r@ == match role {
            Role::Prepare => "prepare-release.yml"@,
            Role::Publish => "publish-release.yml"@,
        },
{
    match role {
        Role::Prepare => "prepare-release.yml",
        Role::Publish => "publish-release.yml",
    }
}

} // verus!
