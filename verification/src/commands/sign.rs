//! `gh ship sign`: why signing could not proceed.

use vstd::prelude::*;

use crate::text::{concat3, owned};

verus! {

/// Why signing could not proceed.
#[derive(Debug, Clone)]
pub enum SignError {
    NoRef,
    NotSigned { branch: String },
}

pub open spec fn sign_error_message(e: SignError) -> Seq<char> {
    match e {
        SignError::NoRef => "cannot tell which branch to sign"@,
        SignError::NotSigned { .. } => "GitHub returned the commit unsigned"@,
    }
}

pub open spec fn sign_error_help(e: SignError) -> Seq<char> {
    match e {
        SignError::NoRef => "pass it explicitly — `gh ship sign <branch>`. In a workflow this is read from `GITHUB_REF`, which names no branch on a `pull_request` event or a tag; outside one it comes from the checkout, which a detached HEAD does not provide."@,
        SignError::NotSigned { branch } => "GitHub only signs commits it creates for a bot: the default `GITHUB_TOKEN`, or a GitHub App installation token. A personal access token or a user login cannot produce one, whatever its permissions. `"@
            + branch@ + "` was left untouched.\n\nTo sign as yourself instead, give the runner a GPG or SSH key and set `commit.gpgsign`."@,
    }
}

impl SignError {
    pub fn message(&self) -> (r: String)
        ensures
            r@ == sign_error_message(*self),
    {
        match self {
            SignError::NoRef => owned("cannot tell which branch to sign"),
            SignError::NotSigned { .. } => owned("GitHub returned the commit unsigned"),
        }
    }

    pub fn help(&self) -> (r: String)
        ensures
            r@ == sign_error_help(*self),
    {
        match self {
            SignError::NoRef => owned("pass it explicitly — `gh ship sign <branch>`. In a workflow this is read from `GITHUB_REF`, which names no branch on a `pull_request` event or a tag; outside one it comes from the checkout, which a detached HEAD does not provide."),
            SignError::NotSigned { branch } => concat3(
                "GitHub only signs commits it creates for a bot: the default `GITHUB_TOKEN`, or a GitHub App installation token. A personal access token or a user login cannot produce one, whatever its permissions. `",
                branch.as_str(),
                "` was left untouched.\n\nTo sign as yourself instead, give the runner a GPG or SSH key and set `commit.gpgsign`.",
            ),
        }
    }
}

/// The diagnostic code of each kind of [`SignError`].
pub open spec fn sign_code(e: SignError) -> Seq<char> {
    match e {
        SignError::NoRef => "ship::sign::no_ref"@,
        SignError::NotSigned { .. } => "ship::sign::not_signed"@,
    }
}

impl SignError {
    /// The diagnostic code that names this kind of error.
    pub fn code(&self) -> (r: &'static str)
        ensures
            r@ == sign_code(*self),
    {
        match self {
            SignError::NoRef => "ship::sign::no_ref",
            SignError::NotSigned { .. } => "ship::sign::not_signed",
        }
    }
}

} // verus!
