//! `gh ship release`: tag the merged Release PR and publish the release.
//!
//! The artifact is read back from the Release PR body, where `prepare`
//! embedded it, which is why the command works days later on another
//! machine. The checks between the `gh` calls are here.

use vstd::prelude::*;

use crate::artifact::codec;
use crate::artifact::model::{Artifact, ArtifactView};
use crate::gh::repo::PullRequest;
use crate::render::{extract_artifact, extracted};
use crate::text::{self, concat2, concat3, owned, push_str};

verus! {

/// Everything that can stop a release before it starts.
#[derive(Debug, Clone)]
pub enum ReleaseError {
    NoPullRequest { release_branch: String, base_branch: String },
    NoArtifact { number: u64 },
    NoTag { number: u64 },
    NoMergeCommit { number: u64 },
    PullRequestClosed { number: u64, state: String },
    PullRequestOpen { number: u64, url: String },
}

pub enum ReleaseErrorView {
    NoPullRequest { release_branch: Seq<char>, base_branch: Seq<char> },
    NoArtifact { number: u64 },
    NoTag { number: u64 },
    NoMergeCommit { number: u64 },
    PullRequestClosed { number: u64, state: Seq<char> },
    PullRequestOpen { number: u64, url: Seq<char> },
}

impl View for ReleaseError {
    type V = ReleaseErrorView;

    open spec fn view(&self) -> ReleaseErrorView {
        match self {
            ReleaseError::NoPullRequest { release_branch, base_branch } => ReleaseErrorView::NoPullRequest {
                release_branch: release_branch@,
                base_branch: base_branch@,
            },
            ReleaseError::NoArtifact { number } => ReleaseErrorView::NoArtifact { number: *number },
            ReleaseError::NoTag { number } => ReleaseErrorView::NoTag { number: *number },
            ReleaseError::NoMergeCommit { number } => ReleaseErrorView::NoMergeCommit { number: *number },
            ReleaseError::PullRequestClosed { number, state } => ReleaseErrorView::PullRequestClosed {
                number: *number,
                state: state@,
            },
            ReleaseError::PullRequestOpen { number, url } => ReleaseErrorView::PullRequestOpen {
                number: *number,
                url: url@,
            },
        }
    }
}

pub open spec fn pr_ref(n: u64) -> Seq<char> {
    "PR #"@ + codec::dec_text(n as nat)
}

pub open spec fn release_error_message(e: ReleaseErrorView) -> Seq<char> {
    match e {
        ReleaseErrorView::NoPullRequest { release_branch, base_branch } => "no Release PR found for `"@
            + release_branch + "` → `"@ + base_branch + "`"@,
        ReleaseErrorView::NoArtifact { number } => pr_ref(number) + " does not carry a release artifact"@,
        ReleaseErrorView::NoTag { number } => pr_ref(number) + " carries a release artifact with no tag"@,
        ReleaseErrorView::NoMergeCommit { number } => "could not determine the commit "@ + pr_ref(number)
            + " merged as"@,
        ReleaseErrorView::PullRequestClosed { number, state } => pr_ref(number) + " is `"@ + state
            + "` — it was closed without merging"@,
        ReleaseErrorView::PullRequestOpen { number, .. } => pr_ref(number) + " is still open"@,
    }
}

pub open spec fn release_error_help(e: ReleaseErrorView) -> Seq<char> {
    match e {
        ReleaseErrorView::NoPullRequest { .. } => "run `gh ship prepare` first, or check `gh ship status`"@,
        ReleaseErrorView::NoArtifact { .. } => "gh-ship embeds the release artifact in the Release PR body as an HTML comment, and reads it back here. It is missing, which usually means the body was edited or the PR was not created by gh-ship. Re-run `gh ship prepare` to restore it."@,
        ReleaseErrorView::NoTag { .. } => "the artifact embedded in the Release PR body reports a change but names no tag, which usually means the body was edited. Re-run `gh ship prepare` to restore it."@,
        ReleaseErrorView::NoMergeCommit { .. } => "GitHub reported the PR as merged but returned no merge commit; retry in a moment, or check `gh ship status`"@,
        ReleaseErrorView::PullRequestClosed { .. } => "run `gh ship prepare` to start a new release"@,
        ReleaseErrorView::PullRequestOpen { url, .. } => "merge it first, or pass `--merge` to have gh-ship merge it: "@
            + url,
    }
}

fn pr_ref_string(n: u64) -> (r: String)
    ensures
        r@ == pr_ref(n),
{
    let d = codec::dec_string(n);
    concat2("PR #", d.as_str())
}

impl ReleaseError {
    /// The error's one-line summary.
    pub fn message(&self) -> (r: String)
        ensures
            r@ == release_error_message(self@),
    {
        match self {
            ReleaseError::NoPullRequest { release_branch, base_branch } => {
                let mut out = concat3("no Release PR found for `", release_branch.as_str(), "` → `");
                push_str(&mut out, base_branch.as_str());
                push_str(&mut out, "`");
                out
            },
            ReleaseError::NoArtifact { number } => {
                let mut out = pr_ref_string(*number);
                push_str(&mut out, " does not carry a release artifact");
                out
            },
            ReleaseError::NoTag { number } => {
                let mut out = pr_ref_string(*number);
                push_str(&mut out, " carries a release artifact with no tag");
                out
            },
            ReleaseError::NoMergeCommit { number } => {
                let p = pr_ref_string(*number);
                concat3("could not determine the commit ", p.as_str(), " merged as")
            },
            ReleaseError::PullRequestClosed { number, state } => {
                let mut out = pr_ref_string(*number);
                push_str(&mut out, " is `");
                push_str(&mut out, state.as_str());
                push_str(&mut out, "` — it was closed without merging");
                out
            },
            ReleaseError::PullRequestOpen { number, .. } => {
                let mut out = pr_ref_string(*number);
                push_str(&mut out, " is still open");
                out
            },
        }
    }

    /// What to do about it.
    pub fn help(&self) -> (r: String)
        ensures
            r@ == release_error_help(self@),
    {
        match self {
            ReleaseError::NoPullRequest { .. } => owned("run `gh ship prepare` first, or check `gh ship status`"),
            ReleaseError::NoArtifact { .. } => owned("gh-ship embeds the release artifact in the Release PR body as an HTML comment, and reads it back here. It is missing, which usually means the body was edited or the PR was not created by gh-ship. Re-run `gh ship prepare` to restore it."),
            ReleaseError::NoTag { .. } => owned("the artifact embedded in the Release PR body reports a change but names no tag, which usually means the body was edited. Re-run `gh ship prepare` to restore it."),
            ReleaseError::NoMergeCommit { .. } => owned("GitHub reported the PR as merged but returned no merge commit; retry in a moment, or check `gh ship status`"),
            ReleaseError::PullRequestClosed { .. } => owned("run `gh ship prepare` to start a new release"),
            ReleaseError::PullRequestOpen { url, .. } => concat2("merge it first, or pass `--merge` to have gh-ship merge it: ", url.as_str()),
        }
    }
}

/// The Release PR, or why there is none.
pub fn require_pull_request(found: Option<PullRequest>, release_branch: &str, base_branch: &str) -> (r: Result<PullRequest, ReleaseError>)
    ensures
        match found {
            Some(p) => r matches Ok(x) && x == p,
            None => r matches Err(e) && e@ == (ReleaseErrorView::NoPullRequest {
                release_branch: release_branch@,
                base_branch: base_branch@,
            }),
        },
{
    match found {
        Some(p) => Ok(p),
        None => Err(ReleaseError::NoPullRequest { release_branch: owned(release_branch), base_branch: owned(base_branch) }),
    }
}

/// Read the artifact back out of the Release PR body.
pub fn recover_artifact(pr: &PullRequest) -> (r: Result<Artifact, ReleaseError>)
    ensures
        match extracted(pr.body@) {
            Some(a) => r matches Ok(x) && x@ == a,
            None => r matches Err(e) && e@ == (ReleaseErrorView::NoArtifact { number: pr.number }),
        },
{
    match extract_artifact(pr.body.as_str()) {
        Some(a) => Ok(a),
        None => Err(ReleaseError::NoArtifact { number: pr.number }),
    }
}

/// The tag a changed artifact releases. The schema requires one, but the
/// artifact comes from a PR body a human can edit.
pub fn release_tag(artifact: &Artifact, number: u64) -> (r: Result<String, ReleaseError>)
    ensures
        match artifact@.tag {
            Some(t) => r matches Ok(x) && x@ == t,
            None => r matches Err(e) && e@ == (ReleaseErrorView::NoTag { number }),
        },
{
    match &artifact.tag {
        Some(t) => Ok(t.clone()),
        None => Err(ReleaseError::NoTag { number }),
    }
}

/// What to do to get the Release PR merged.
#[derive(Debug)]
pub enum MergeStep {
    /// Already merged.
    Merged,
    /// Open, and `--merge` was given: merge it, then read it again, since
    /// the merge commit only exists afterwards.
    Merge,
    Refused(ReleaseError),
}

pub fn merge_step(pr: &PullRequest, merge: bool) -> (r: MergeStep)
    ensures
        if text::eq_ignore_ascii_case(pr.state@, "merged"@) {
            r is Merged
        } else if !text::eq_ignore_ascii_case(pr.state@, "open"@) {
            r matches MergeStep::Refused(e) && e@ == (ReleaseErrorView::PullRequestClosed { number: pr.number, state: pr.state@ })
        } else if !merge {
            r matches MergeStep::Refused(e) && e@ == (ReleaseErrorView::PullRequestOpen { number: pr.number, url: pr.url@ })
        } else {
            r is Merge
        },
{
    if pr.is_merged() {
        return MergeStep::Merged;
    }
    if !pr.is_open() {
        return MergeStep::Refused(ReleaseError::PullRequestClosed { number: pr.number, state: pr.state.clone() });
    }
    if !merge {
        return MergeStep::Refused(ReleaseError::PullRequestOpen { number: pr.number, url: pr.url.clone() });
    }
    MergeStep::Merge
}

/// The commit the merged PR landed as: the only trustworthy SHA after a
/// squash or rebase merge.
pub fn merge_target(pr: &PullRequest) -> (r: Result<String, ReleaseError>)
    ensures
        match pr@.merge_commit {
            Some(c) => r matches Ok(x) && x@ == c,
            None => r matches Err(e) && e@ == (ReleaseErrorView::NoMergeCommit { number: pr.number }),
        },
{
    match &pr.merge_commit {
        Some(c) => Ok(c.oid.clone()),
        None => Err(ReleaseError::NoMergeCommit { number: pr.number }),
    }
}

/// What happens after the release is created.
#[derive(Debug, Clone, Copy, PartialEq, Eq, Structural)]
pub enum Publish {
    /// Run the publish workflow, then undraft: the only order that lets
    /// it attach assets before watchers are notified.
    RunThenUndraft,
    /// Not drafting: warn that watchers were notified first, then run it.
    WarnThenRun,
    /// A draft with no publish workflow would stay invisible: undraft now.
    Undraft,
    Nothing,
}

pub open spec fn publish_of(has_publish: bool, draft: bool) -> Publish {
    if has_publish {
        if draft { Publish::RunThenUndraft } else { Publish::WarnThenRun }
    } else if draft {
        Publish::Undraft
    } else {
        Publish::Nothing
    }
}

pub fn publish_plan(has_publish: bool, draft: bool) -> (r: Publish)
    ensures
        r == publish_of(has_publish, draft),
{
    if has_publish {
        if draft { Publish::RunThenUndraft } else { Publish::WarnThenRun }
    } else if draft {
        Publish::Undraft
    } else {
        Publish::Nothing
    }
}

/// The diagnostic code of each kind of [`ReleaseError`].
pub open spec fn release_code(e: ReleaseError) -> Seq<char> {
    match e {
        ReleaseError::NoPullRequest { .. } => "ship::release::no_pr"@,
        ReleaseError::NoArtifact { .. } => "ship::release::no_artifact"@,
        ReleaseError::NoTag { .. } => "ship::release::no_tag"@,
        ReleaseError::NoMergeCommit { .. } => "ship::release::no_merge_commit"@,
        ReleaseError::PullRequestClosed { .. } => "ship::release::pr_closed"@,
        ReleaseError::PullRequestOpen { .. } => "ship::release::pr_open"@,
    }
}

impl ReleaseError {
    /// The diagnostic code that names this kind of error.
    pub fn code(&self) -> (r: &'static str)
        ensures
            r@ == release_code(*self),
    {
        match self {
            ReleaseError::NoPullRequest { .. } => "ship::release::no_pr",
            ReleaseError::NoArtifact { .. } => "ship::release::no_artifact",
            ReleaseError::NoTag { .. } => "ship::release::no_tag",
            ReleaseError::NoMergeCommit { .. } => "ship::release::no_merge_commit",
            ReleaseError::PullRequestClosed { .. } => "ship::release::pr_closed",
            ReleaseError::PullRequestOpen { .. } => "ship::release::pr_open",
        }
    }
}

} // verus!
