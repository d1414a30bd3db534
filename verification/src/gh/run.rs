//! Dispatching workflows and finding the run that resulted.
//!
//! `gh workflow run` answers with nothing: no run id, no URL. gh-ship
//! therefore correlates on what it controls: the ref it dispatched on
//! (unique to the release), the event (only `workflow_dispatch` runs are
//! candidates), and novelty (the run ids on the ref are snapshotted before
//! dispatching; the run that was not there before is ours).
//!
//! The polling itself (sleeping, measuring time, running `gh`) is the
//! caller's; each decision taken between two polls is a function here.

use std::collections::HashSet;

use vstd::prelude::*;

use super::cli::{gh_code, mentions, opt_view, to_lower, GhError, GhErrorView};
use super::repo::{
    arg, call_is, decoded, defaulted_of_member, defaulted_string, discard, push_arg, reply_json, unit_of,
    unit_view, Invocation,
};
use super::workflow::{WorkflowRef, LEGACY_SHIP_ID_INPUT};
use crate::artifact::codec;
use crate::artifact::json::{self, Json};
use crate::gh::cli::strings;
use crate::text::{self, concat2, concat3, owned, push_str, str_contains, str_eq};

verus! {

/// How long to wait for a dispatched run to appear, in seconds.
pub const APPEAR_TIMEOUT_SECS: u64 = 90;

/// How long to wait for a run to finish, in seconds.
pub const RUN_TIMEOUT_SECS: u64 = 3600;


/// The first polling interval, in milliseconds.
pub const POLL_MIN_MILLIS: u64 = 2000;

/// The longest polling interval, in milliseconds.
pub const POLL_MAX_MILLIS: u64 = 15000;

/// The next polling interval: half again as long as `current_ms`,
/// capped at the longest, so that polling never grows without bound.
pub fn backoff(current_ms: u64) -> (r: u64)
    ensures
        r == (if current_ms * 3 / 2 < POLL_MAX_MILLIS { current_ms * 3 / 2 } else { POLL_MAX_MILLIS as int }),
{
    if current_ms >= POLL_MAX_MILLIS {
        return POLL_MAX_MILLIS;
    }
    let next = current_ms + current_ms / 2;
    assert(next == current_ms * 3 / 2);
    if next < POLL_MAX_MILLIS {
        next
    } else {
        POLL_MAX_MILLIS
    }
}

/// The projection `gh run` is asked for; `list` and `view` must agree.
pub const RUN_FIELDS: &'static str = "databaseId,displayTitle,status,conclusion,url,headBranch,event";

/// The `event` GitHub reports for a run gh-ship started itself.
pub const DISPATCH_EVENT: &'static str = "workflow_dispatch";

/// The appearance timeout in seconds: `SHIP_APPEAR_TIMEOUT` when it reads
/// as a number, else [`APPEAR_TIMEOUT_SECS`].
pub fn appear_timeout(setting: Option<&str>) -> (r: u64)
    ensures
        r == match super::cli::env_duration_spec(setting) {
            Some(v) => v,
            None => APPEAR_TIMEOUT_SECS,
        },
{
    match super::cli::env_duration(setting) {
        Some(v) => v,
        None => APPEAR_TIMEOUT_SECS,
    }
}

/// The run timeout in seconds: `SHIP_RUN_TIMEOUT` when it reads as a
/// number, else [`RUN_TIMEOUT_SECS`].
pub fn run_timeout(setting: Option<&str>) -> (r: u64)
    ensures
        r == match super::cli::env_duration_spec(setting) {
            Some(v) => v,
            None => RUN_TIMEOUT_SECS,
        },
{
    match super::cli::env_duration(setting) {
        Some(v) => v,
        None => RUN_TIMEOUT_SECS,
    }
}

/// A workflow run as reported by `gh run list`.
#[derive(Debug, Clone)]
pub struct Run {
    pub id: u64,
    pub title: String,
    pub status: String,
    pub conclusion: String,
    pub url: String,
    pub head_branch: String,
    /// What triggered the run.
    pub event: String,
}

pub struct RunView {
    pub id: u64,
    pub title: Seq<char>,
    pub status: Seq<char>,
    pub conclusion: Seq<char>,
    pub url: Seq<char>,
    pub head_branch: Seq<char>,
    pub event: Seq<char>,
}

impl View for Run {
    type V = RunView;

    open spec fn view(&self) -> RunView {
        RunView {
            id: self.id,
            title: self.title@,
            status: self.status@,
            conclusion: self.conclusion@,
            url: self.url@,
            head_branch: self.head_branch@,
            event: self.event@,
        }
    }
}

pub open spec fn finished(r: RunView) -> bool {
    r.status == "completed"@
}

pub open spec fn successful(r: RunView) -> bool {
    finished(r) && r.conclusion == "success"@
}

pub open spec fn dispatched(r: RunView) -> bool {
    r.event == DISPATCH_EVENT@
}

impl Run {
    /// A copy with the same fields.
    pub fn copy(&self) -> (r: Run)
        ensures
            r@ == self@,
    {
        Run {
            id: self.id,
            title: self.title.clone(),
            status: self.status.clone(),
            conclusion: self.conclusion.clone(),
            url: self.url.clone(),
            head_branch: self.head_branch.clone(),
            event: self.event.clone(),
        }
    }

    /// Whether the run has reached a terminal state.
    pub fn is_finished(&self) -> (r: bool)
        ensures
            r == finished(self@),
    {
        str_eq(self.status.as_str(), "completed")
    }

    /// Whether the run finished successfully.
    pub fn succeeded(&self) -> (r: bool)
        ensures
            r == successful(self@),
    {
        self.is_finished() && str_eq(self.conclusion.as_str(), "success")
    }

    /// Whether the run was started through the API, as gh-ship starts them.
    pub fn is_dispatched(&self) -> (r: bool)
        ensures
            r == dispatched(self@),
    {
        str_eq(self.event.as_str(), DISPATCH_EVENT)
    }
}

// --- Errors ---------------------------------------------------------------------------------

/// Errors specific to dispatching and tracking runs.
#[derive(Debug, Clone)]
pub enum RunError {
    Gh(GhError),
    NotFound { workflow: String, timeout_secs: u64, help: String },
    Failed { workflow: String, conclusion: String, url: String },
    Timeout { workflow: String, timeout_secs: u64, url: String },
}

pub enum RunErrorView {
    Gh(GhErrorView),
    NotFound { workflow: Seq<char>, timeout_secs: u64, help: Seq<char> },
    Failed { workflow: Seq<char>, conclusion: Seq<char>, url: Seq<char> },
    Timeout { workflow: Seq<char>, timeout_secs: u64, url: Seq<char> },
}

impl View for RunError {
    type V = RunErrorView;

    open spec fn view(&self) -> RunErrorView {
        match self {
            RunError::Gh(e) => RunErrorView::Gh(e@),
            RunError::NotFound { workflow, timeout_secs, help } => RunErrorView::NotFound {
                workflow: workflow@,
                timeout_secs: *timeout_secs,
                help: help@,
            },
            RunError::Failed { workflow, conclusion, url } => RunErrorView::Failed {
                workflow: workflow@,
                conclusion: conclusion@,
                url: url@,
            },
            RunError::Timeout { workflow, timeout_secs, url } => RunErrorView::Timeout {
                workflow: workflow@,
                timeout_secs: *timeout_secs,
                url: url@,
            },
        }
    }
}

pub open spec fn run_error_message(e: RunErrorView) -> Seq<char> {
    match e {
        RunErrorView::Gh(g) => super::cli::gh_message(g),
        RunErrorView::NotFound { workflow, timeout_secs, .. } => "dispatched `"@ + workflow
            + "`, but no matching run appeared within "@ + codec::dec_text(timeout_secs as nat) + "s"@,
        RunErrorView::Failed { workflow, conclusion, .. } => "`"@ + workflow + "` finished with conclusion `"@
            + conclusion + "`"@,
        RunErrorView::Timeout { workflow, timeout_secs, .. } => "`"@ + workflow + "` did not finish within "@
            + codec::dec_text((timeout_secs / 60) as nat) + "m"@,
    }
}

pub open spec fn run_error_help(e: RunErrorView) -> Option<Seq<char>> {
    match e {
        RunErrorView::Gh(GhErrorView::Failed { help, .. }) => help,
        RunErrorView::Gh(_) => None,
        RunErrorView::NotFound { help, .. } => Some(help),
        RunErrorView::Failed { url, .. } => Some("inspect the failure: "@ + url),
        RunErrorView::Timeout { url, .. } => Some(
            "the run is still going — watch it at "@ + url + ", then re-run this command"@,
        ),
    }
}

impl RunError {
    /// The error's one-line summary.
    pub fn message(&self) -> (r: String)
        ensures
            r@ == run_error_message(self@),
    {
        match self {
            RunError::Gh(e) => e.message(),
            RunError::NotFound { workflow, timeout_secs, .. } => {
                let mut out = concat3("dispatched `", workflow.as_str(), "`, but no matching run appeared within ");
                let n = codec::dec_string(*timeout_secs);
                push_str(&mut out, n.as_str());
                push_str(&mut out, "s");
                out
            },
            RunError::Failed { workflow, conclusion, .. } => {
                let mut out = concat3("`", workflow.as_str(), "` finished with conclusion `");
                push_str(&mut out, conclusion.as_str());
                push_str(&mut out, "`");
                out
            },
            RunError::Timeout { workflow, timeout_secs, .. } => {
                let mut out = concat3("`", workflow.as_str(), "` did not finish within ");
                let n = codec::dec_string(*timeout_secs / 60);
                push_str(&mut out, n.as_str());
                push_str(&mut out, "m");
                out
            },
        }
    }

    /// What to do about it, when there is something to say.
    pub fn help(&self) -> (r: Option<String>)
        ensures
            opt_view(r) == run_error_help(self@),
    {
        match self {
            RunError::Gh(GhError::Failed { help, .. }) => match help {
                Some(h) => Some(h.clone()),
                None => None,
            },
            RunError::Gh(_) => None,
            RunError::NotFound { help, .. } => Some(help.clone()),
            RunError::Failed { url, .. } => Some(concat2("inspect the failure: ", url.as_str())),
            RunError::Timeout { url, .. } => Some(
                concat3("the run is still going — watch it at ", url.as_str(), ", then re-run this command"),
            ),
        }
    }
}

/// Standard guidance when a dispatched run cannot be found, ordered by
/// likelihood: the first suggestion is the one people read.
pub open spec fn not_found_help_of(slug: Seq<char>) -> Seq<char> {
    "confirm `"@ + slug
        + "` exists on the dispatched ref — `workflow_dispatch` reads the workflow file from that ref, not from your default branch — and that it declares `on: workflow_dispatch`. Check with `gh ship validate`. If a teammate dispatched the same workflow on the same ref at the same moment, gh-ship may have attached to their run instead."@
}

pub fn not_found_help(workflow: &WorkflowRef) -> (r: String)
    ensures
        r@ == not_found_help_of(workflow.slug@),
{
    concat3(
        "confirm `",
        workflow.slug.as_str(),
        "` exists on the dispatched ref — `workflow_dispatch` reads the workflow file from that ref, not from your default branch — and that it declares `on: workflow_dispatch`. Check with `gh ship validate`. If a teammate dispatched the same workflow on the same ref at the same moment, gh-ship may have attached to their run instead.",
    )
}

// --- Dispatching ----------------------------------------------------------------------------

/// Whether a failed dispatch failed only because it omitted `ship_id`.
///
/// Deliberately narrow: an unrelated failure must not be retried with a
/// nonsense input.
pub open spec fn needs_shim(e: GhErrorView) -> bool {
    match e {
        GhErrorView::Failed { stderr, .. } => {
            let lower = super::cli::lowercase_of(stderr);
            mentions(lower, LEGACY_SHIP_ID_INPUT@) && (mentions(lower, "required"@) || mentions(lower, "expected"@))
        },
        _ => false,
    }
}

pub fn needs_legacy_ship_id(err: &GhError) -> (r: bool)
    ensures
        r == needs_shim(err@),
{
    match err {
        GhError::Failed { stderr, .. } => {
            let lower = to_lower(stderr.as_str());
            str_contains(lower.as_str(), LEGACY_SHIP_ID_INPUT) && (str_contains(lower.as_str(), "required")
                || str_contains(lower.as_str(), "expected"))
        },
        _ => false,
    }
}

/// `-f key=value` for each input.
pub open spec fn input_flags(inputs: Seq<(Seq<char>, Seq<char>)>) -> Seq<Seq<char>>
    decreases inputs.len(),
{
    if inputs.len() == 0 {
        Seq::empty()
    } else {
        input_flags(inputs.drop_last()) + seq!["-f"@, inputs.last().0 + "="@ + inputs.last().1]
    }
}

pub open spec fn pairs_view(inputs: Seq<(String, String)>) -> Seq<(Seq<char>, Seq<char>)> {
    inputs.map_values(|p: (String, String)| (p.0@, p.1@))
}

/// `gh workflow run {id} --ref {branch} -f key=value...`, scoped; the
/// shimmed form adds `-f ship_id={token}`.
pub open spec fn dispatch_args(id: Seq<char>, branch: Seq<char>, inputs: Seq<(Seq<char>, Seq<char>)>, token: Option<Seq<char>>) -> Seq<Seq<char>> {
    seq!["workflow"@, "run"@, id, "--ref"@, branch] + input_flags(inputs) + match token {
        Some(t) => seq!["-f"@, LEGACY_SHIP_ID_INPUT@ + "="@ + t],
        None => Seq::empty(),
    }
}

/// The dispatch invocation. The API resolves a workflow by file name,
/// name or numeric id, never by slug, so the id goes on the wire.
pub fn dispatch_call(workflow: &WorkflowRef, branch: &str, inputs: &[(String, String)], token: Option<&str>) -> (r: Invocation)
    ensures
        call_is(
            r,
            dispatch_args(workflow.id@, branch@, pairs_view(inputs@), match token {
                Some(t) => Some(t@),
                None => None,
            }),
            true,
        ),
{
    let mut args: Vec<String> = Vec::new();
    arg(&mut args, "workflow");
    arg(&mut args, "run");
    arg(&mut args, workflow.id.as_str());
    arg(&mut args, "--ref");
    arg(&mut args, branch);
    let ghost head = strings(args@);
    assert(head =~= seq!["workflow"@, "run"@, workflow.id@, "--ref"@, branch@]);
    let ghost ps = pairs_view(inputs@);
    let mut i: usize = 0;
    assert(ps.take(0) =~= Seq::<(Seq<char>, Seq<char>)>::empty());
    assert(head + input_flags(ps.take(0)) =~= head);
    while i < inputs.len()
        invariant
            i <= inputs@.len(),
            ps == pairs_view(inputs@),
            strings(args@) == head + input_flags(ps.take(i as int)),
        decreases inputs.len() - i,
    {
        assert(ps.take(i + 1).drop_last() =~= ps.take(i as int));
        assert(ps.take(i + 1).last() == (inputs@[i as int].0@, inputs@[i as int].1@));
        arg(&mut args, "-f");
        let flag = concat3(inputs[i].0.as_str(), "=", inputs[i].1.as_str());
        push_arg(&mut args, flag);
        assert(strings(args@) =~= head + input_flags(ps.take(i + 1)));
        i += 1;
    }
    assert(ps.take(inputs@.len() as int) =~= ps);
    let ghost body = strings(args@);
    match token {
        Some(t) => {
            arg(&mut args, "-f");
            let flag = concat3(LEGACY_SHIP_ID_INPUT, "=", t);
            push_arg(&mut args, flag);
            assert(strings(args@) =~= body + seq!["-f"@, LEGACY_SHIP_ID_INPUT@ + "="@ + t@]);
        },
        None => {
            assert(strings(args@) =~= body + Seq::<Seq<char>>::empty());
        },
    }
    Invocation { args, scoped: true }
}

/// What a dispatch reply means.
#[derive(Debug)]
pub enum Dispatched {
    /// The workflow was dispatched; `true` when only thanks to the legacy
    /// `ship_id` shim, so the caller can warn.
    Done(bool),
    /// An older workflow wants `ship_id`: dispatch again with the shim.
    RetryWithShipId,
    Failed(RunError),
}

/// Interpret a dispatch reply. `shimmed` says whether the dispatch
/// already carried the shim; a shimmed dispatch is never retried.
pub fn dispatch(reply: Result<String, GhError>, shimmed: bool) -> (r: Dispatched)
    ensures
        match reply {
            Ok(_) => r matches Dispatched::Done(b) && b == shimmed,
            Err(e) => if !shimmed && needs_shim(e@) {
                r is RetryWithShipId
            } else {
                r matches Dispatched::Failed(x) && x@ == RunErrorView::Gh(e@)
            },
        },
{
    match reply {
        Ok(_) => Dispatched::Done(shimmed),
        Err(e) => {
            if !shimmed && needs_legacy_ship_id(&e) {
                Dispatched::RetryWithShipId
            } else {
                Dispatched::Failed(RunError::Gh(e))
            }
        },
    }
}

// --- Listing and viewing runs -------------------------------------------------------------------

/// A run document: `databaseId` required, the strings defaulting to
/// empty when absent.
pub open spec fn decode_run(j: Json) -> Option<RunView> {
    match j {
        Json::Object(m) => match (
            codec::member(m@, "databaseId"@),
            defaulted_string(m@, "displayTitle"@),
            defaulted_string(m@, "status"@),
            defaulted_string(m@, "conclusion"@),
            defaulted_string(m@, "url"@),
            defaulted_string(m@, "headBranch"@),
            defaulted_string(m@, "event"@),
        ) {
            (Some(Json::Number(n)), Some(title), Some(status), Some(conclusion), Some(url), Some(head_branch), Some(event)) => match n.as_u64 {
                Some(id) => Some(RunView { id, title, status, conclusion, url, head_branch, event }),
                None => None,
            },
            _ => None,
        },
        _ => None,
    }
}

/// A list of run documents, when every one reads.
pub open spec fn decode_runs(j: Json) -> Option<Seq<RunView>> {
    match j {
        Json::Array(items) => if forall|i: int| 0 <= i < items@.len() ==> decode_run(#[trigger] items@[i]) is Some {
            Some(Seq::new(items@.len(), |i: int| decode_run(items@[i])->0))
        } else {
            None
        },
        _ => None,
    }
}

pub open spec fn runs_view(v: Seq<Run>) -> Seq<RunView> {
    v.map_values(|r: Run| r@)
}

fn run_of(j: &Json) -> (r: Option<Run>)
    ensures
        match decode_run(*j) {
            Some(v) => r matches Some(x) && x@ == v,
            None => r is None,
        },
{
    let Json::Object(m) = j else {
        return None;
    };
    let id = match codec::find_member(m, "databaseId") {
        Some(Json::Number(n)) => match n.as_u64 {
            Some(x) => x,
            None => return None,
        },
        _ => return None,
    };
    let title = match defaulted_of_member(m, "displayTitle") {
        Some(s) => s,
        None => return None,
    };
    let status = match defaulted_of_member(m, "status") {
        Some(s) => s,
        None => return None,
    };
    let conclusion = match defaulted_of_member(m, "conclusion") {
        Some(s) => s,
        None => return None,
    };
    let url = match defaulted_of_member(m, "url") {
        Some(s) => s,
        None => return None,
    };
    let head_branch = match defaulted_of_member(m, "headBranch") {
        Some(s) => s,
        None => return None,
    };
    let event = match defaulted_of_member(m, "event") {
        Some(s) => s,
        None => return None,
    };
    Some(Run { id, title, status, conclusion, url, head_branch, event })
}

fn runs_of(j: &Json) -> (r: Option<Vec<Run>>)
    ensures
        match decode_runs(*j) {
            Some(v) => r matches Some(x) && runs_view(x@) == v,
            None => r is None,
        },
{
    let Json::Array(items) = j else {
        return None;
    };
    let mut out: Vec<Run> = Vec::new();
    let mut i: usize = 0;
    while i < items.len()
        invariant
            *j == Json::Array(*items),
            i <= items@.len(),
            out@.len() == i,
            forall|k: int| 0 <= k < i ==> decode_run(#[trigger] items@[k]) == Some(out@[k]@),
        decreases items.len() - i,
    {
        match run_of(&items[i]) {
            Some(r) => out.push(r),
            None => {
                assert(decode_run(items@[i as int]) is None);
                return None;
            },
        }
        i += 1;
    }
    assert(runs_view(out@) =~= Seq::new(items@.len(), |k: int| decode_run(items@[k])->0));
    Some(out)
}

pub open spec fn list_args(id: Seq<char>, branch: Seq<char>) -> Seq<Seq<char>> {
    seq!["run"@, "list"@, "--workflow"@, id, "--branch"@, branch, "--limit"@, "50"@, "--json"@, RUN_FIELDS@]
}

/// `gh run list` for a workflow on a ref, scoped.
///
/// The limit is generous: a busy repository can register many runs
/// between the dispatch and the first poll, and missing ours because it
/// fell off a short page would be the exact failure this design exists
/// to prevent.
pub fn list_call(workflow: &WorkflowRef, branch: &str) -> (r: Invocation)
    ensures
        call_is(r, list_args(workflow.id@, branch@), true),
{
    let mut args: Vec<String> = Vec::new();
    arg(&mut args, "run");
    arg(&mut args, "list");
    arg(&mut args, "--workflow");
    arg(&mut args, workflow.id.as_str());
    arg(&mut args, "--branch");
    arg(&mut args, branch);
    arg(&mut args, "--limit");
    arg(&mut args, "50");
    arg(&mut args, "--json");
    arg(&mut args, RUN_FIELDS);
    assert(strings(args@) =~= list_args(workflow.id@, branch@));
    Invocation { args, scoped: true }
}

pub open spec fn listed_view(r: Result<Vec<Run>, GhError>) -> Result<Seq<RunView>, GhErrorView> {
    match r {
        Ok(v) => Ok(runs_view(v@)),
        Err(e) => Err(e@),
    }
}

/// The runs a `gh run list` reply lists.
pub fn list(reply: Result<String, GhError>, display: &str) -> (r: Result<Vec<Run>, GhError>)
    ensures
        listed_view(r) == decoded(reply, display@, |j: Json| decode_runs(j)),
{
    let j = match reply_json(reply, display) {
        Ok(j) => j,
        Err(e) => return Err(e),
    };
    match runs_of(&j) {
        Some(v) => Ok(v),
        None => Err(GhError::Decode { args: owned(display), message: owned("the JSON does not have the expected shape") }),
    }
}

pub open spec fn view_args(id: u64) -> Seq<Seq<char>> {
    seq!["run"@, "view"@, codec::dec_text(id as nat), "--json"@, RUN_FIELDS@]
}

/// `gh run view {id}`, scoped.
pub fn view_call(id: u64) -> (r: Invocation)
    ensures
        call_is(r, view_args(id), true),
{
    let mut args: Vec<String> = Vec::new();
    arg(&mut args, "run");
    arg(&mut args, "view");
    push_arg(&mut args, codec::dec_string(id));
    arg(&mut args, "--json");
    arg(&mut args, RUN_FIELDS);
    assert(strings(args@) =~= view_args(id));
    Invocation { args, scoped: true }
}

pub open spec fn viewed_view(r: Result<Run, GhError>) -> Result<RunView, GhErrorView> {
    match r {
        Ok(v) => Ok(v@),
        Err(e) => Err(e@),
    }
}

/// A single run's current state, from a `gh run view` reply.
pub fn view(reply: Result<String, GhError>, display: &str) -> (r: Result<Run, GhError>)
    ensures
        viewed_view(r) == decoded(reply, display@, |j: Json| decode_run(j)),
{
    let j = match reply_json(reply, display) {
        Ok(j) => j,
        Err(e) => return Err(e),
    };
    match run_of(&j) {
        Some(v) => Ok(v),
        None => Err(GhError::Decode { args: owned(display), message: owned("the JSON does not have the expected shape") }),
    }
}

pub open spec fn download_args(id: u64, name: Seq<char>, dest: Seq<char>) -> Seq<Seq<char>> {
    seq!["run"@, "download"@, codec::dec_text(id as nat), "--name"@, name, "--dir"@, dest]
}

/// `gh run download {id} --name {name} --dir {dest}`, scoped.
pub fn download_artifact_call(id: u64, name: &str, dest: &str) -> (r: Invocation)
    ensures
        call_is(r, download_args(id, name@, dest@), true),
{
    let mut args: Vec<String> = Vec::new();
    arg(&mut args, "run");
    arg(&mut args, "download");
    push_arg(&mut args, codec::dec_string(id));
    arg(&mut args, "--name");
    arg(&mut args, name);
    arg(&mut args, "--dir");
    arg(&mut args, dest);
    assert(strings(args@) =~= download_args(id, name@, dest@));
    Invocation { args, scoped: true }
}

/// Whether a download went through.
pub fn download_artifact(reply: Result<String, GhError>) -> (r: Result<(), GhError>)
    ensures
        unit_view(r) == unit_of(reply),
{
    discard(reply)
}

// --- Correlation ----------------------------------------------------------------------------

/// The ids of the runs a listing shows; a failed listing shows none, so
/// the first dispatched run seen wins, which is right on a fresh branch.
pub open spec fn snapshot_of(listed: Result<Seq<RunView>, GhErrorView>) -> Set<u64> {
    match listed {
        Ok(runs) => runs.map_values(|r: RunView| r.id).to_set(),
        Err(_) => Set::empty(),
    }
}

pub fn snapshot(listed: Result<Vec<Run>, GhError>) -> (r: HashSet<u64>)
    ensures
        r@ == snapshot_of(listed_view(listed)),
{
    broadcast use vstd::std_specs::hash::group_hash_axioms;
    let mut ids: HashSet<u64> = HashSet::new();
    match listed {
        Ok(runs) => {
            let ghost ids_of = runs_view(runs@).map_values(|r: RunView| r.id);
            let mut i: usize = 0;
            while i < runs.len()
                invariant
                    i <= runs@.len(),
                    ids_of == runs_view(runs@).map_values(|r: RunView| r.id),
                    ids@ =~= ids_of.take(i as int).to_set(),
                decreases runs.len() - i,
            {
                let id = runs[i].id;
                ids.insert(id);
                assert(ids_of.take(i + 1) =~= ids_of.take(i as int).push(id));
                assert(ids@ =~= ids_of.take(i + 1).to_set()) by {
                    assert forall|x: u64| ids_of.take(i + 1).to_set().contains(x) <==> ids@.contains(x) by {
                        if ids_of.take(i + 1).contains(x) && x != id {
                            let k = choose|k: int| 0 <= k < ids_of.take(i + 1).len() && #[trigger] ids_of.take(i + 1)[k] == x;
                            assert(ids_of.take(i as int)[k] == x);
                        }
                        if ids_of.take(i as int).contains(x) {
                            let k = choose|k: int| 0 <= k < ids_of.take(i as int).len() && #[trigger] ids_of.take(i as int)[k] == x;
                            assert(ids_of.take(i + 1)[k] == x);
                        }
                        if x == id {
                            assert(ids_of.take(i + 1)[i as int] == x);
                        }
                    }
                }
                i += 1;
            }
            assert(ids_of.take(runs@.len() as int) =~= ids_of);
            ids
        },
        Err(_) => ids,
    }
}

/// Whether a run could be ours: dispatched, and not there before.
pub open spec fn candidate(r: RunView, known: Set<u64>) -> bool {
    dispatched(r) && !known.contains(r.id)
}

/// The newest candidate: the highest id, the last one listed among equals
/// (`Iterator::max_by_key`).
pub open spec fn newest(runs: Seq<RunView>, known: Set<u64>) -> Option<int>
    decreases runs.len(),
{
    if runs.len() == 0 {
        None
    } else {
        let best = newest(runs.drop_last(), known);
        if candidate(runs.last(), known) && (best is None || runs[best->0].id <= runs.last().id) {
            Some(runs.len() - 1)
        } else {
            best
        }
    }
}

pub proof fn lemma_newest(runs: Seq<RunView>, known: Set<u64>)
    ensures
        match newest(runs, known) {
            Some(i) => 0 <= i < runs.len() && candidate(runs[i], known)
                && forall|k: int| 0 <= k < runs.len() && candidate(#[trigger] runs[k], known) ==> runs[k].id <= runs[i].id,
            None => forall|k: int| 0 <= k < runs.len() ==> !candidate(#[trigger] runs[k], known),
        },
    decreases runs.len(),
{
    if runs.len() > 0 {
        lemma_newest(runs.drop_last(), known);
        assert forall|k: int| 0 <= k < runs.len() - 1 implies runs.drop_last()[k] == #[trigger] runs[k] by {}
    }
}

/// The run that was not there before: the newest dispatched run whose id
/// is not in `known`.
pub fn pick_new(runs: &Vec<Run>, known: &HashSet<u64>) -> (r: Option<Run>)
    ensures
        r matches Some(x) ==> dispatched(x@) && !known@.contains(x.id) && forall|k: int|
            0 <= k < runs@.len() && candidate(#[trigger] runs@[k]@, known@) ==> runs@[k].id <= x.id,
        match newest(runs_view(runs@), known@) {
            Some(i) => r matches Some(x) && x@ == runs@[i]@,
            None => r is None,
        },
{
    broadcast use vstd::std_specs::hash::group_hash_axioms;
    let ghost rv = runs_view(runs@);
    let mut best: Option<usize> = None;
    let mut i: usize = 0;
    assert(rv.take(0) =~= Seq::<RunView>::empty());
    while i < runs.len()
        invariant
            i <= runs@.len(),
            rv == runs_view(runs@),
            match newest(rv.take(i as int), known@) {
                Some(b) => best == Some(b as usize),
                None => best is None,
            },
            match best {
                Some(b) => b < i,
                None => true,
            },
        decreases runs.len() - i,
    {
        assert(rv.take(i + 1).drop_last() =~= rv.take(i as int));
        assert(rv.take(i + 1).last() == runs@[i as int]@);
        let ghost prior = newest(rv.take(i as int), known@);
        proof {
            lemma_newest(rv.take(i as int), known@);
        }
        let r = &runs[i];
        let is_candidate = r.is_dispatched() && !known.contains(&r.id);
        assert(is_candidate == candidate(rv.take(i + 1).last(), known@));
        let better = match best {
            None => true,
            Some(b) => {
                assert(rv.take(i + 1)[b as int] == runs@[b as int]@);
                runs[b].id <= r.id
            },
        };
        let ghost next = rv.take(i + 1);
        assert(next.len() == i + 1);
        assert(next.drop_last() == rv.take(i as int));
        assert(newest(next, known@) == (if candidate(next.last(), known@) && (prior is None || next[prior->0].id <= next.last().id) {
            Some(next.len() - 1)
        } else {
            prior
        }));
        assert(better == (prior is None || next[prior->0].id <= next.last().id));
        assert(newest(rv.take(i + 1), known@) == (if is_candidate && better { Some(i as int) } else { prior }));
        if is_candidate && better {
            best = Some(i);
        }
        i += 1;
    }
    assert(rv.take(runs@.len() as int) =~= rv);
    proof {
        lemma_newest(rv, known@);
        assert forall|k: int| 0 <= k < runs@.len() implies rv[k] == #[trigger] runs@[k]@ by {}
    }
    match best {
        Some(b) => Some(runs[b].copy()),
        None => None,
    }
}

/// What to do after a poll for the dispatched run.
#[derive(Debug)]
pub enum Search {
    Found(Run),
    GiveUp(RunError),
    /// Nothing yet: wait, then poll again.
    Wait,
}

/// Decide after a `gh run list` poll, `elapsed_secs` whole seconds after
/// the search started.
pub fn find_step(
    listed: Result<Vec<Run>, GhError>,
    known: &HashSet<u64>,
    workflow: &WorkflowRef,
    elapsed_secs: u64,
    timeout_secs: u64,
) -> (r: Search)
    ensures
        match listed {
            Err(e) => r matches Search::GiveUp(x) && x@ == RunErrorView::Gh(e@),
            Ok(runs) => match newest(runs_view(runs@), known@) {
                Some(i) => r matches Search::Found(x) && x@ == runs@[i]@,
                None => if elapsed_secs >= timeout_secs {
                    r matches Search::GiveUp(x) && x@ == (RunErrorView::NotFound {
                        workflow: workflow.slug@,
                        timeout_secs,
                        help: not_found_help_of(workflow.slug@),
                    })
                } else {
                    r is Wait
                },
            },
        },
{
    match listed {
        Err(e) => Search::GiveUp(RunError::Gh(e)),
        Ok(runs) => match pick_new(&runs, known) {
            Some(run) => Search::Found(run),
            None => {
                if elapsed_secs >= timeout_secs {
                    Search::GiveUp(RunError::NotFound {
                        workflow: workflow.slug.clone(),
                        timeout_secs,
                        help: not_found_help(workflow),
                    })
                } else {
                    Search::Wait
                }
            },
        },
    }
}

/// What to do with a run being waited on.
#[derive(Debug)]
pub enum Progress {
    Succeeded(Run),
    Stopped(RunError),
    /// Still going: wait, then view it again.
    Poll,
}

/// The conclusion a failed run is reported with.
pub open spec fn conclusion_text(c: Seq<char>) -> Seq<char> {
    if c.len() == 0 { "unknown"@ } else { c }
}

/// Decide about a run's current state, `elapsed_secs` whole seconds after
/// waiting started.
pub fn wait_step(current: &Run, workflow: &WorkflowRef, elapsed_secs: u64, timeout_secs: u64) -> (r: Progress)
    ensures
        if finished(current@) {
            if successful(current@) {
                r matches Progress::Succeeded(x) && x@ == current@
            } else {
                r matches Progress::Stopped(x) && x@ == (RunErrorView::Failed {
                    workflow: workflow.slug@,
                    conclusion: conclusion_text(current@.conclusion),
                    url: current@.url,
                })
            }
        } else if elapsed_secs >= timeout_secs {
            r matches Progress::Stopped(x) && x@ == (RunErrorView::Timeout {
                workflow: workflow.slug@,
                timeout_secs,
                url: current@.url,
            })
        } else {
            r is Poll
        },
{
    if current.is_finished() {
        if current.succeeded() {
            return Progress::Succeeded(current.copy());
        }
        proof {
            reveal_strlit("");
        }
        assert(""@ =~= Seq::<char>::empty());
        assert(current@.conclusion.len() == 0 ==> current@.conclusion =~= Seq::<char>::empty());
        let conclusion = if str_eq(current.conclusion.as_str(), "") {
            assert(current@.conclusion.len() == 0);
            let u = owned("unknown");
            assert(u@ == "unknown"@);
            u
        } else {
            assert(current@.conclusion.len() != 0);
            let c = current.conclusion.clone();
            assert(c@ == current@.conclusion);
            c
        };
        assert(conclusion@ == conclusion_text(current@.conclusion));
        return Progress::Stopped(RunError::Failed {
            workflow: workflow.slug.clone(),
            conclusion,
            url: current.url.clone(),
        });
    }
    if elapsed_secs >= timeout_secs {
        return Progress::Stopped(RunError::Timeout {
            workflow: workflow.slug.clone(),
            timeout_secs,
            url: current.url.clone(),
        });
    }
    Progress::Poll
}

/// The diagnostic code of each kind of [`RunError`].
pub open spec fn run_code(e: RunError) -> Seq<char> {
    match e {
        RunError::Gh(g) => gh_code(g),
        RunError::NotFound { .. } => "ship::run::not_found"@,
        RunError::Failed { .. } => "ship::run::failed"@,
        RunError::Timeout { .. } => "ship::run::timeout"@,
    }
}

impl RunError {
    /// The diagnostic code that names this kind of error.
    pub fn code(&self) -> (r: &'static str)
        ensures
            r@ == run_code(*self),
    {
        match self {
            RunError::Gh(g) => g.code(),
            RunError::NotFound { .. } => "ship::run::not_found",
            RunError::Failed { .. } => "ship::run::failed",
            RunError::Timeout { .. } => "ship::run::timeout",
        }
    }
}

} // verus!
