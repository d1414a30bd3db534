//! `gh ship status`: where the current release stands.
//!
//! A pure query, reconstructed from GitHub every time: whether the release
//! branch exists, the Release PR, the last prepare run, the artifact
//! embedded in the PR, whether the release exists.

use vstd::prelude::*;

use crate::artifact::codec;
use crate::artifact::model::{opt_view, Artifact};
use crate::commands::{abbreviated, short_len, short_sha};
use crate::gh::cli::{lowercase_of, to_lower, GhError};
use crate::gh::repo::{state, PullRequest};
use crate::gh::repo::{call_is, release_exists, release_exists_call, Invocation};
use crate::gh::run::{list_args, list_call, Run};
use crate::gh::workflow::WorkflowRef;
use crate::logger::{
    self, action_text, detail_text, detail_url_text, release_identity_text, skip_text,
};
use crate::style::Theme;
use crate::text::{self, concat2, concat3, is_blank, owned, push_str, string_views};

verus! {

/// The Release PR, as `status` reports it.
#[derive(Debug, Clone)]
pub struct PullRequestStatus {
    pub number: u64,
    pub url: String,
    pub title: String,
    pub state: String,
    pub merged_sha: Option<String>,
}

impl PullRequestStatus {
    /// What `status` reports of a pull request.
    pub fn of(p: &PullRequest) -> (r: PullRequestStatus)
        ensures
            r.number == p.number,
            r.url@ == p.url@,
            r.title@ == p.title@,
            r.state@ == p.state@,
            opt_view(r.merged_sha) == p@.merge_commit,
    {
        PullRequestStatus {
            number: p.number,
            url: p.url.clone(),
            title: p.title.clone(),
            state: p.state.clone(),
            merged_sha: match &p.merge_commit {
                Some(c) => Some(c.oid.clone()),
                None => None,
            },
        }
    }

    pub fn is_merged(&self) -> (r: bool)
        ensures
            r == text::eq_ignore_ascii_case(self.state@, "merged"@),
    {
        state::is_merged(self.state.as_str())
    }

    pub fn is_closed(&self) -> (r: bool)
        ensures
            r == text::eq_ignore_ascii_case(self.state@, "closed"@),
    {
        state::is_closed(self.state.as_str())
    }
}

/// The last prepare run, as `status` reports it.
#[derive(Debug, Clone)]
pub struct RunStatus {
    pub id: u64,
    pub title: String,
    pub status: String,
    pub conclusion: String,
    pub url: String,
}

/// The most recent run on the release branch, whether or not gh-ship
/// started it: the first one listed; none when listing failed.
pub fn last_run(listed: Result<Vec<Run>, GhError>) -> (r: Option<RunStatus>)
    ensures
        match listed {
            Ok(runs) => if runs@.len() > 0 {
                r matches Some(s) && s.id == runs@[0].id && s.title@ == runs@[0].title@ && s.status@
                    == runs@[0].status@ && s.conclusion@ == runs@[0].conclusion@ && s.url@ == runs@[0].url@
            } else {
                r is None
            },
            Err(_) => r is None,
        },
{
    match listed {
        Ok(runs) => {
            if runs.len() == 0 {
                return None;
            }
            let first = &runs[0];
            Some(RunStatus {
                id: first.id,
                title: first.title.clone(),
                status: first.status.clone(),
                conclusion: first.conclusion.clone(),
                url: first.url.clone(),
            })
        },
        Err(_) => None,
    }
}

/// The advice `status` ends with.
#[derive(Debug, Clone, Copy, PartialEq, Eq, Structural)]
pub enum Next {
    Done,
    StartRelease,
    ProduceReleasePr,
    Release,
    MergedWithoutArtifact,
    StartAgain,
    ReviewAndMerge,
}

/// The single most useful next action, checked from "all done" back to
/// "nothing started": the first matching case is the right advice.
pub open spec fn next_of(branch_exists: bool, pr_state: Option<Seq<char>>, has_artifact: bool, release_exists: bool) -> Next {
    if release_exists {
        Next::Done
    } else {
        match pr_state {
            None => if branch_exists { Next::ProduceReleasePr } else { Next::StartRelease },
            Some(s) => if text::eq_ignore_ascii_case(s, "merged"@) {
                if has_artifact { Next::Release } else { Next::MergedWithoutArtifact }
            } else if text::eq_ignore_ascii_case(s, "closed"@) {
                Next::StartAgain
            } else {
                Next::ReviewAndMerge
            },
        }
    }
}

pub open spec fn next_text(n: Next) -> Seq<char> {
    match n {
        Next::Done => "the release exists — nothing to do"@,
        Next::ProduceReleasePr => "run `gh ship prepare` to produce the Release PR"@,
        Next::StartRelease => "run `gh ship prepare` to start a release"@,
        Next::Release => "run `gh ship release` to tag and publish"@,
        Next::MergedWithoutArtifact => "the Release PR was merged but carries no artifact — run `gh ship prepare` again on a fresh branch"@,
        Next::StartAgain => "the Release PR was closed — run `gh ship prepare` to start again"@,
        Next::ReviewAndMerge => "review and merge the Release PR, then run `gh ship release`"@,
    }
}

/// Work out the single most useful next action, in plain language.
pub fn next_step(
    branch_exists: bool,
    pr: Option<&PullRequestStatus>,
    artifact: Option<&Artifact>,
    release_exists: bool,
) -> (r: String)
    ensures
        r@ == next_text(
            next_of(
                branch_exists,
                match pr {
                    Some(p) => Some(p.state@),
                    None => None,
                },
                artifact is Some,
                release_exists,
            ),
        ),
{
    if release_exists {
        return owned("the release exists — nothing to do");
    }
    let Some(pr) = pr else {
        return if branch_exists {
            owned("run `gh ship prepare` to produce the Release PR")
        } else {
            owned("run `gh ship prepare` to start a release")
        };
    };
    if pr.is_merged() {
        return match artifact {
            Some(_) => owned("run `gh ship release` to tag and publish"),
            None => owned(
                "the Release PR was merged but carries no artifact — run `gh ship prepare` again on a fresh branch",
            ),
        };
    }
    if pr.is_closed() {
        return owned("the Release PR was closed — run `gh ship prepare` to start again");
    }
    owned("review and merge the Release PR, then run `gh ship release`")
}

// --- What status asks GitHub ---------------------------------------------------------------

/// The listing of the last prepare runs, made only when there is a
/// release branch to list them on.
pub fn run_listing(branch_exists: bool, workflow: &WorkflowRef, release_branch: &str) -> (r: Option<Invocation>)
    ensures
        branch_exists ==> (r matches Some(c) && call_is(c, list_args(workflow.id@, release_branch@), true)),
        !branch_exists ==> r is None,
{
    if branch_exists {
        Some(list_call(workflow, release_branch))
    } else {
        None
    }
}

/// The lookup of the release the embedded artifact names, when it names
/// a tag.
pub fn release_lookup(artifact: Option<&Artifact>) -> (r: Option<Invocation>)
    ensures
        match artifact {
            Some(a) => match a@.tag {
                Some(t) => r matches Some(c) && call_is(c, seq!["release"@, "view"@, t, "--json"@, "tagName"@], true),
                None => r is None,
            },
            None => r is None,
        },
{
    match artifact {
        Some(a) => match a.tag() {
            Some(t) => Some(release_exists_call(t)),
            None => None,
        },
        None => None,
    }
}

/// Whether the release is published: only a lookup that answered says
/// so; no lookup, or one that failed, reads as not published, since
/// `status` reports and never fails on it.
pub fn release_published(reply: Option<Result<String, GhError>>) -> (r: bool)
    ensures
        match reply {
            Some(Ok(_)) => r,
            Some(Err(_)) => !r,
            None => !r,
        },
{
    match reply {
        Some(x) => match release_exists(x) {
            Ok(b) => b,
            Err(_) => false,
        },
        None => false,
    }
}

// --- The report ------------------------------------------------------------------------------

/// The reconstructed state of a release.
#[derive(Debug, Clone)]
pub struct Status {
    pub repository: String,
    pub base_branch: String,
    pub release_branch: String,
    pub release_branch_exists: bool,
    pub pull_request: Option<PullRequestStatus>,
    pub artifact: Option<Artifact>,
    pub last_run: Option<RunStatus>,
    pub release_exists: bool,
    /// What to do next, in plain language.
    pub next: String,
}

/// Whether the merged SHA, if any, can be cut to its abbreviation
/// between two characters.
pub open spec fn abbreviable(s: Status) -> bool {
    match s.pull_request {
        Some(p) => match p.merged_sha {
            Some(sha) => vstd::utf8::is_char_boundary(vstd::utf8::encode_utf8(sha@), short_len(sha@)),
            None => true,
        },
        None => true,
    }
}

/// The release branch, and whether it is missing.
pub open spec fn branch_text(s: Status) -> Seq<char> {
    if s.release_branch_exists {
        s.release_branch@
    } else {
        s.release_branch@ + " (does not exist)"@
    }
}

pub open spec fn pr_lines(c: bool, pr: Option<PullRequestStatus>) -> Seq<Seq<char>> {
    match pr {
        Some(p) => seq![
            detail_text(c, "release pr"@, "#"@ + codec::dec_text(p.number as nat) + " "@ + p.title@ + " ["@ + lowercase_of(p.state@) + "]"@),
            detail_url_text(c, "pr"@, p.url@),
        ] + match p.merged_sha {
            Some(sha) => seq![detail_text(c, "merged as"@, abbreviated(sha@))],
            None => Seq::empty(),
        },
        None => seq![detail_text(c, "release pr"@, "none"@)],
    }
}

pub open spec fn artifact_lines(c: bool, a: Option<Artifact>) -> Seq<Seq<char>> {
    match a {
        Some(a) => if a.changed {
            seq![release_identity_text(c, a@.version, a@.tag)]
        } else {
            seq![detail_text(c, "artifact"@, "nothing to release"@)]
        },
        None => seq![detail_text(c, "artifact"@, "none"@)],
    }
}

/// A run's status, with its conclusion once it has one.
pub open spec fn run_state(r: RunStatus) -> Seq<char> {
    if r.conclusion@.len() == 0 {
        r.status@
    } else {
        r.status@ + " ("@ + r.conclusion@ + ")"@
    }
}

pub open spec fn run_lines(c: bool, r: Option<RunStatus>) -> Seq<Seq<char>> {
    match r {
        Some(r) => seq![detail_text(c, "last run"@, run_state(r)), detail_url_text(c, "run"@, r.url@)],
        None => Seq::empty(),
    }
}

/// The report `status` prints, line by line.
pub open spec fn status_report(c: bool, s: Status) -> Seq<Seq<char>> {
    seq![
        action_text(c, "status of"@, s.repository@),
        ""@,
        detail_text(c, "base branch"@, s.base_branch@),
        detail_text(c, "release branch"@, branch_text(s)),
    ] + pr_lines(c, s.pull_request) + artifact_lines(c, s.artifact) + run_lines(c, s.last_run) + (if s.release_exists {
        seq![detail_text(c, "release"@, "published"@)]
    } else {
        Seq::empty()
    }) + seq![""@, skip_text(c, "next: "@ + s.next@)]
}

fn push_line(out: &mut Vec<String>, line: String)
    ensures
        string_views(final(out)@) == string_views(old(out)@).push(line@),
{
    out.push(line);
    assert(string_views(out@) =~= string_views(old(out)@).push(line@));
}

fn push_pr_lines(out: &mut Vec<String>, theme: &Theme, pr: &Option<PullRequestStatus>)
    requires
        match pr {
            Some(p) => match p.merged_sha {
                Some(sha) => vstd::utf8::is_char_boundary(vstd::utf8::encode_utf8(sha@), short_len(sha@)),
                None => true,
            },
            None => true,
        },
    ensures
        string_views(final(out)@) == string_views(old(out)@) + pr_lines(theme.colored_view(), *pr),
{
    let ghost head = string_views(out@);
    match pr {
        Some(p) => {
            let number = codec::dec_string(p.number);
            let mut line = concat3("#", number.as_str(), " ");
            push_str(&mut line, p.title.as_str());
            push_str(&mut line, " [");
            let lower = to_lower(p.state.as_str());
            push_str(&mut line, lower.as_str());
            push_str(&mut line, "]");
            push_line(out, logger::detail(theme, "release pr", line.as_str()));
            push_line(out, logger::detail_url(theme, "pr", p.url.as_str()));
            match &p.merged_sha {
                Some(sha) => {
                    push_line(out, logger::detail(theme, "merged as", short_sha(sha.as_str())));
                },
                None => {},
            }
        },
        None => {
            push_line(out, logger::detail(theme, "release pr", "none"));
        },
    }
    assert(string_views(out@) =~= head + pr_lines(theme.colored_view(), *pr));
}

fn push_artifact_lines(out: &mut Vec<String>, theme: &Theme, artifact: &Option<Artifact>)
    ensures
        string_views(final(out)@) == string_views(old(out)@) + artifact_lines(theme.colored_view(), *artifact),
{
    let ghost head = string_views(out@);
    match artifact {
        Some(a) => {
            if a.changed {
                push_line(out, logger::release_identity(theme, a.version(), a.tag()));
            } else {
                push_line(out, logger::detail(theme, "artifact", "nothing to release"));
            }
        },
        None => {
            push_line(out, logger::detail(theme, "artifact", "none"));
        },
    }
    assert(string_views(out@) =~= head + artifact_lines(theme.colored_view(), *artifact));
}

fn push_run_lines(out: &mut Vec<String>, theme: &Theme, run: &Option<RunStatus>)
    ensures
        string_views(final(out)@) == string_views(old(out)@) + run_lines(theme.colored_view(), *run),
{
    let ghost head = string_views(out@);
    match run {
        Some(r) => {
            let state = if text::char_count(r.conclusion.as_str()) == 0 {
                owned(r.status.as_str())
            } else {
                let mut s = concat3(r.status.as_str(), " (", r.conclusion.as_str());
                push_str(&mut s, ")");
                s
            };
            push_line(out, logger::detail(theme, "last run", state.as_str()));
            push_line(out, logger::detail_url(theme, "run", r.url.as_str()));
        },
        None => {},
    }
    assert(string_views(out@) =~= head + run_lines(theme.colored_view(), *run));
}

/// Where a release stands, as the lines `status` prints.
pub fn status_lines(status: &Status, theme: &Theme) -> (r: Vec<String>)
    requires
        abbreviable(*status),
    ensures
        string_views(r@) == status_report(theme.colored_view(), *status),
{
    let ghost c = theme.colored_view();
    proof {
        reveal_strlit("");
        assert(""@ =~= Seq::<char>::empty());
    }
    let mut out: Vec<String> = Vec::new();
    push_line(&mut out, logger::action(theme, "status of", status.repository.as_str()));
    push_line(&mut out, String::new());
    push_line(&mut out, logger::detail(theme, "base branch", status.base_branch.as_str()));
    let branch = if status.release_branch_exists {
        owned(status.release_branch.as_str())
    } else {
        concat2(status.release_branch.as_str(), " (does not exist)")
    };
    push_line(&mut out, logger::detail(theme, "release branch", branch.as_str()));
    let ghost opening = string_views(out@);
    push_pr_lines(&mut out, theme, &status.pull_request);
    push_artifact_lines(&mut out, theme, &status.artifact);
    push_run_lines(&mut out, theme, &status.last_run);
    let ghost middle = string_views(out@);
    if status.release_exists {
        push_line(&mut out, logger::detail(theme, "release", "published"));
    }
    push_line(&mut out, String::new());
    let next = concat2("next: ", status.next.as_str());
    push_line(&mut out, logger::skip(theme, next.as_str()));
    assert(middle =~= opening + pr_lines(c, status.pull_request) + artifact_lines(c, status.artifact) + run_lines(
        c,
        status.last_run,
    ));
    assert(string_views(out@) =~= status_report(c, *status));
    out
}

} // verus!
