//! `gh ship prepare`: run the prepare workflow and open the Release PR.
//!
//! The order: refuse to start while a merged Release PR awaits
//! `gh ship release`; sweep staging branches; cut a throwaway staging
//! branch from the base; dispatch on it and wait; validate the artifact;
//! promote the release branch onto the staged commit; open or update the
//! Release PR with the artifact embedded in its body. The decisions along
//! the way are here.

use vstd::prelude::*;

use crate::branches::Line;
use crate::gh::repo::{call_is, create_branch_at_call, ref_post, reset_branch_call, Invocation, PullRequest, PullRequestView};
use crate::render::{extract_artifact, extracted};
use crate::text::{self, concat2, owned, str_eq};

verus! {

/// Prefix of the throwaway branches `prepare` stages its work on.
pub const STAGING_PREFIX: &'static str = "ship/prepare-";

/// Where the staging branches of a release line start: with release lines
/// configured, the name carries the line's base branch (its `/` written as
/// `-`), so that a prepare on one line never sweeps away another line's
/// staging branch; without, the historical prefix alone, so that branches
/// staged before release lines existed are still swept.
pub open spec fn staging_prefix_of(line: Option<Seq<char>>) -> Seq<char> {
    match line {
        None => STAGING_PREFIX@,
        Some(base) => STAGING_PREFIX@ + text::replaced(base, "/"@, "-"@) + "-"@,
    }
}

/// The prefix the staging branches of `line` share, and the sweep looks for.
pub fn staging_prefix(line: Option<&str>) -> (r: String)
    ensures
        r@ == staging_prefix_of(match line {
            Some(b) => Some(b@),
            None => None,
        }),
{
    match line {
        None => owned(STAGING_PREFIX),
        Some(base) => {
            proof {
                reveal_strlit("/");
            }
            let flat = text::replace_all(base, "/", "-");
            let mut out = concat2(STAGING_PREFIX, flat.as_str());
            text::push_str(&mut out, "-");
            out
        },
    }
}

/// The release line staging is scoped to: the line's base branch when it
/// was resolved against configured `branches`, none for the single line.
pub fn staging_scope(line: &Line) -> (r: Option<&str>)
    ensures
        match line.entry {
            Some(_) => r matches Some(b) && b@ == line.base@,
            None => r is None,
        },
{
    match line.entry {
        Some(_) => Some(line.base.as_str()),
        None => None,
    }
}

/// The staging branch of a run, named after its token so that a branch
/// left behind by a failed run can be traced to it, and after its release
/// line when lines are configured.
pub fn stage_branch(line: Option<&str>, token: &str) -> (r: String)
    ensures
        r@ == staging_prefix_of(match line {
            Some(b) => Some(b@),
            None => None,
        }) + token@,
{
    let mut out = staging_prefix(line);
    text::push_str(&mut out, token);
    out
}

/// The release a merged Release PR carries, when it carries one: the tag
/// of a changed artifact embedded in its body.
pub open spec fn pending_tag_of(pr: PullRequestView) -> Option<Seq<char>> {
    if !text::eq_ignore_ascii_case(pr.state, "merged"@) {
        None
    } else {
        match extracted(pr.body) {
            Some(a) => if a.changed { a.tag } else { None },
            None => None,
        }
    }
}

/// The tag to look for before preparing: `None` when the last Release PR
/// (if any) is not merged, or carries no changed artifact with a tag, and
/// preparing may go ahead at once.
pub fn pending_tag(pr: Option<&PullRequest>) -> (r: Option<String>)
    ensures
        match pr {
            None => r is None,
            Some(p) => match pending_tag_of(p@) {
                Some(t) => r matches Some(x) && x@ == t,
                None => r is None,
            },
        },
{
    let Some(pr) = pr else {
        return None;
    };
    if !pr.is_merged() {
        return None;
    }
    let Some(artifact) = extract_artifact(pr.body.as_str()) else {
        return None;
    };
    if !artifact.changed {
        return None;
    }
    artifact.tag
}

/// Whether the last Release PR makes a new release cycle pointless now.
#[derive(Debug, Clone, Copy, PartialEq, Eq, Structural)]
pub enum InFlight {
    /// Nothing stands in the way.
    Proceed,
    /// Released, and its merge commit is still the tip of the base:
    /// nothing new to release.
    Published,
    /// Merged but not released: preparing would start a second release
    /// for a version already merged.
    Unpublished,
}

pub open spec fn in_flight_of(merged_sha: Option<Seq<char>>, release_exists: bool, base_sha: Seq<char>) -> InFlight {
    if release_exists {
        if merged_sha != Some(base_sha) { InFlight::Proceed } else { InFlight::Published }
    } else {
        InFlight::Unpublished
    }
}

/// Decide, once the release of the pending tag has been looked up.
/// Stopping is a success: nothing is wrong.
pub fn release_in_flight(pr: &PullRequest, release_exists: bool, base_sha: &str) -> (r: InFlight)
    ensures
        r == in_flight_of(pr@.merge_commit, release_exists, base_sha@),
{
    if release_exists {
        match pr.merged_sha() {
            Some(sha) => if str_eq(sha, base_sha) { InFlight::Published } else { InFlight::Proceed },
            None => InFlight::Proceed,
        }
    } else {
        InFlight::Unpublished
    }
}

/// Move the release branch onto the staged commit: in a single update
/// when it exists, so it is never equal to the base and the Release PR
/// is never emptied; created there otherwise.
pub fn promote_call(repo: &str, release: &str, staged_sha: &str, release_exists: bool) -> (r: Invocation)
    ensures
        release_exists ==> call_is(
            r,
            seq![
                "api"@,
                "repos/"@ + repo@ + "/git/refs/heads/"@ + release@,
                "--method"@,
                "PATCH"@,
                "-f"@,
                "sha="@ + staged_sha@,
                "-F"@,
                "force=true"@,
                "--silent"@,
            ],
            false,
        ),
        !release_exists ==> call_is(r, ref_post(repo@, "refs/heads/"@ + release@, staged_sha@), false),
{
    if release_exists {
        reset_branch_call(repo, release, staged_sha)
    } else {
        create_branch_at_call(repo, release, staged_sha)
    }
}

/// What to do with the Release PR.
#[derive(Debug, Clone, Copy, PartialEq, Eq, Structural)]
pub enum Upsert {
    /// Keep the PR (reopening it first when it was closed) and update it.
    Update { number: u64, reopen: bool },
    /// Not reusing: close the open PR, then open its successor.
    CloseThenOpen { number: u64 },
    Open,
}

pub open spec fn upsert_of(existing: Option<PullRequestView>, reuse: bool) -> Upsert {
    match existing {
        Some(p) if !text::eq_ignore_ascii_case(p.state, "merged"@) => if reuse {
            Upsert::Update { number: p.number, reopen: !text::eq_ignore_ascii_case(p.state, "open"@) }
        } else if text::eq_ignore_ascii_case(p.state, "open"@) {
            Upsert::CloseThenOpen { number: p.number }
        } else {
            Upsert::Open
        },
        _ => Upsert::Open,
    }
}

/// Open, update or reopen the Release PR. A merged PR belongs to a release
/// that already shipped and is never touched; `reuse` decides between
/// keeping one PR across prepares and opening a fresh one every time.
pub fn upsert_plan(existing: Option<&PullRequest>, reuse: bool) -> (r: Upsert)
    ensures
        r == upsert_of(
            match existing {
                Some(p) => Some(p@),
                None => None,
            },
            reuse,
        ),
{
    match existing {
        Some(p) => {
            if p.is_merged() {
                Upsert::Open
            } else if reuse {
                Upsert::Update { number: p.number, reopen: !p.is_open() }
            } else if p.is_open() {
                Upsert::CloseThenOpen { number: p.number }
            } else {
                Upsert::Open
            }
        },
        None => Upsert::Open,
    }
}

} // verus!
