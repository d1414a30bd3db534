//! Repository, branch, pull request and release operations.
//!
//! Each operation is one `gh` invocation: an [`Invocation`] built here,
//! run by the caller, and its reply read back here. Replies that carry
//! JSON are parsed with `serde_json` and read into plain models.

pub mod state;

use vstd::prelude::*;

use super::cli::{strings, GhError, GhErrorView};
use crate::artifact::codec;
use crate::artifact::json::{self, parse_json, Json};
use crate::text::{self, concat2, concat3, owned, str_contains, str_eq_ignore_ascii_case, str_starts_with, trimmed};

verus! {

/// One `gh` invocation: its arguments, and whether `--repo` is appended
/// when one is configured.
#[derive(Debug, Clone)]
pub struct Invocation {
    pub args: Vec<String>,
    pub scoped: bool,
}

pub open spec fn call_is(c: Invocation, args: Seq<Seq<char>>, scoped: bool) -> bool {
    strings(c.args@) == args && c.scoped == scoped
}

pub(crate) fn arg(v: &mut Vec<String>, s: &str)
    ensures
        strings(final(v)@) == strings(old(v)@).push(s@),
{
    let ghost before = strings(v@);
    v.push(owned(s));
    assert(strings(v@) =~= before.push(s@));
}

pub(crate) fn push_arg(v: &mut Vec<String>, s: String)
    ensures
        strings(final(v)@) == strings(old(v)@).push(s@),
{
    let ghost before = strings(v@);
    let ghost sv = s@;
    v.push(s);
    assert(strings(v@) =~= before.push(sv));
}

/// The outcome of an invocation whose output is not needed.
pub open spec fn unit_of(reply: Result<String, GhError>) -> Result<(), GhErrorView> {
    match reply {
        Ok(_) => Ok(()),
        Err(e) => Err(e@),
    }
}

pub open spec fn unit_view(r: Result<(), GhError>) -> Result<(), GhErrorView> {
    match r {
        Ok(()) => Ok(()),
        Err(e) => Err(e@),
    }
}

pub(crate) fn discard(reply: Result<String, GhError>) -> (r: Result<(), GhError>)
    ensures
        unit_view(r) == unit_of(reply),
{
    match reply {
        Ok(_) => Ok(()),
        Err(e) => Err(e),
    }
}

/// Whether a reply is a failure whose message contains one of `signs`.
pub open spec fn failed_with(reply: Result<String, GhError>, signs: Seq<Seq<char>>) -> bool {
    match reply {
        Err(GhError::Failed { stderr, .. }) => exists|i: int| 0 <= i < signs.len() && text::contains(stderr@, #[trigger] signs[i]),
        _ => false,
    }
}

// --- Repository ----------------------------------------------------------------------

/// The subset of repository metadata gh-ship needs.
#[derive(Debug, Clone)]
pub struct Repository {
    pub name_with_owner: String,
    pub default_branch: BranchRef,
    pub url: String,
}

#[derive(Debug, Clone)]
pub struct BranchRef {
    pub name: String,
}

pub struct RepositoryView {
    pub name_with_owner: Seq<char>,
    pub default_branch: Seq<char>,
    pub url: Seq<char>,
}

impl View for Repository {
    type V = RepositoryView;

    open spec fn view(&self) -> RepositoryView {
        RepositoryView { name_with_owner: self.name_with_owner@, default_branch: self.default_branch.name@, url: self.url@ }
    }
}

/// A required string member.
pub open spec fn string_member(m: Seq<(String, Json)>, key: Seq<char>) -> Option<Seq<char>> {
    match codec::member(m, key) {
        Some(Json::Str(s)) => Some(s@),
        _ => None,
    }
}

/// A string member that defaults to empty when absent.
pub open spec fn defaulted_string(m: Seq<(String, Json)>, key: Seq<char>) -> Option<Seq<char>> {
    match codec::member(m, key) {
        None => Some(Seq::empty()),
        Some(Json::Str(s)) => Some(s@),
        _ => None,
    }
}

/// The repository a `gh repo view --json` document describes.
pub open spec fn decode_repository(j: Json) -> Option<RepositoryView> {
    match j {
        Json::Object(m) => match (
            string_member(m@, "nameWithOwner"@),
            codec::member(m@, "defaultBranchRef"@),
            defaulted_string(m@, "url"@),
        ) {
            (Some(n), Some(Json::Object(b)), Some(u)) => match string_member(b@, "name"@) {
                Some(d) => Some(RepositoryView { name_with_owner: n, default_branch: d, url: u }),
                None => None,
            },
            _ => None,
        },
        _ => None,
    }
}

pub(crate) fn string_of_member(m: &Vec<(String, Json)>, key: &str) -> (r: Option<String>)
    ensures
        match string_member(m@, key@) {
            Some(s) => r matches Some(x) && x@ == s,
            None => r is None,
        },
{
    match codec::find_member(m, key) {
        Some(Json::Str(s)) => Some(s.clone()),
        _ => None,
    }
}

pub(crate) fn defaulted_of_member(m: &Vec<(String, Json)>, key: &str) -> (r: Option<String>)
    ensures
        match defaulted_string(m@, key@) {
            Some(s) => r matches Some(x) && x@ == s,
            None => r is None,
        },
{
    match codec::find_member(m, key) {
        None => Some(String::new()),
        Some(Json::Str(s)) => Some(s.clone()),
        _ => None,
    }
}

fn repository_of(j: &Json) -> (r: Option<Repository>)
    ensures
        match decode_repository(*j) {
            Some(v) => r matches Some(x) && x@ == v,
            None => r is None,
        },
{
    let Json::Object(m) = j else {
        return None;
    };
    let n = string_of_member(m, "nameWithOwner");
    let b = codec::find_member(m, "defaultBranchRef");
    let u = defaulted_of_member(m, "url");
    match (n, b, u) {
        (Some(n), Some(Json::Object(b)), Some(u)) => match string_of_member(b, "name") {
            Some(d) => Some(Repository { name_with_owner: n, default_branch: BranchRef { name: d }, url: u }),
            None => None,
        },
        _ => None,
    }
}

/// The message a reply that is JSON of the wrong shape gets.
pub open spec fn shape_message() -> Seq<char> {
    "the JSON does not have the expected shape"@
}

/// A JSON reply read with `decode`: the failure, the parse error, the
/// wrong shape, or the value.
pub open spec fn decoded<V>(reply: Result<String, GhError>, display: Seq<char>, decode: spec_fn(Json) -> Option<V>) -> Result<V, GhErrorView> {
    match reply {
        Err(e) => Err(e@),
        Ok(out) => match json::json_parsed(out@) {
            Err(e) => Err(GhErrorView::Decode { args: display, message: e.message@ }),
            Ok(v) => match decode(v) {
                Some(x) => Ok(x),
                None => Err(GhErrorView::Decode { args: display, message: shape_message() }),
            },
        },
    }
}

/// The reply as a JSON document.
pub(crate) fn reply_json(reply: Result<String, GhError>, display: &str) -> (r: Result<Json, GhError>)
    ensures
        match reply {
            Err(e) => r matches Err(x) && x@ == e@,
            Ok(out) => match json::json_parsed(out@) {
                Err(e) => r matches Err(x) && x@ == (GhErrorView::Decode { args: display@, message: e.message@ }),
                Ok(v) => r matches Ok(x) && x == v,
            },
        },
{
    match reply {
        Err(e) => Err(e),
        Ok(out) => match parse_json(out.as_str()) {
            Err(e) => Err(GhError::Decode { args: owned(display), message: e.message }),
            Ok(v) => Ok(v),
        },
    }
}

/// `gh repo view --json nameWithOwner,defaultBranchRef,url`, scoped.
pub open spec fn repository_args() -> Seq<Seq<char>> {
    seq!["repo"@, "view"@, "--json"@, "nameWithOwner,defaultBranchRef,url"@]
}

pub fn repository_call() -> (r: Invocation)
    ensures
        call_is(r, repository_args(), true),
{
    let mut args: Vec<String> = Vec::new();
    arg(&mut args, "repo");
    arg(&mut args, "view");
    arg(&mut args, "--json");
    arg(&mut args, "nameWithOwner,defaultBranchRef,url");
    assert(strings(args@) =~= repository_args());
    Invocation { args, scoped: true }
}

pub open spec fn repo_view_outcome(r: Result<Repository, GhError>) -> Result<RepositoryView, GhErrorView> {
    match r {
        Ok(x) => Ok(x@),
        Err(e) => Err(e@),
    }
}

/// Read the current (or `--repo`) repository from `gh repo view`.
pub fn repository(reply: Result<String, GhError>, display: &str) -> (r: Result<Repository, GhError>)
    ensures
        repo_view_outcome(r) == decoded(reply, display@, |j: Json| decode_repository(j)),
{
    let j = reply_json(reply, display)?;
    match repository_of(&j) {
        Some(x) => Ok(x),
        None => Err(GhError::Decode { args: owned(display), message: owned("the JSON does not have the expected shape") }),
    }
}

// --- Merge settings -------------------------------------------------------------------------

/// The squash commit title source gh-ship wants: the PR title.
pub const SQUASH_TITLE_PR: &'static str = "PR_TITLE";

/// The squash commit message source gh-ship wants: nothing.
pub const SQUASH_MESSAGE_BLANK: &'static str = "BLANK";

/// A repository's squash-merge settings.
#[derive(Debug, Clone)]
pub struct MergeSettings {
    pub allow_squash_merge: bool,
    pub squash_merge_commit_title: String,
    pub squash_merge_commit_message: String,
}

/// A boolean member that defaults to `false` when absent.
pub open spec fn defaulted_bool(m: Seq<(String, Json)>, key: Seq<char>) -> Option<bool> {
    match codec::member(m, key) {
        None => Some(false),
        Some(Json::Bool(b)) => Some(b),
        _ => None,
    }
}

/// The merge settings a `gh api repos/{repo}` document holds; a member
/// the token may not read is absent, and reads as its default.
pub open spec fn decode_merge_settings(j: Json) -> Option<(bool, Seq<char>, Seq<char>)> {
    match j {
        Json::Object(m) => match (
            defaulted_bool(m@, "allow_squash_merge"@),
            defaulted_string(m@, "squash_merge_commit_title"@),
            defaulted_string(m@, "squash_merge_commit_message"@),
        ) {
            (Some(a), Some(t), Some(msg)) => Some((a, t, msg)),
            _ => None,
        },
        _ => None,
    }
}

pub open spec fn settings_view(r: Result<MergeSettings, GhError>) -> Result<(bool, Seq<char>, Seq<char>), GhErrorView> {
    match r {
        Ok(s) => Ok((s.allow_squash_merge, s.squash_merge_commit_title@, s.squash_merge_commit_message@)),
        Err(e) => Err(e@),
    }
}

/// `gh api repos/{repo}`.
pub fn merge_settings_call(repo: &str) -> (r: Invocation)
    ensures
        call_is(r, seq!["api"@, "repos/"@ + repo@], false),
{
    let path = crate::text::concat2("repos/", repo);
    let mut args: Vec<String> = Vec::new();
    arg(&mut args, "api");
    push_arg(&mut args, path);
    assert(strings(args@) =~= seq!["api"@, "repos/"@ + repo@]);
    Invocation { args, scoped: false }
}

fn bool_of_member(m: &Vec<(String, Json)>, key: &str) -> (r: Option<bool>)
    ensures
        r == defaulted_bool(m@, key@),
{
    match codec::find_member(m, key) {
        None => Some(false),
        Some(Json::Bool(b)) => Some(*b),
        _ => None,
    }
}

/// Read the squash-merge settings from the repository document.
pub fn merge_settings(reply: Result<String, GhError>, display: &str) -> (r: Result<MergeSettings, GhError>)
    ensures
        settings_view(r) == decoded(reply, display@, |j: Json| decode_merge_settings(j)),
{
    let j = reply_json(reply, display)?;
    let shape = GhError::Decode { args: owned(display), message: owned("the JSON does not have the expected shape") };
    let Json::Object(m) = &j else {
        return Err(shape);
    };
    let a = bool_of_member(m, "allow_squash_merge");
    let t = defaulted_of_member(m, "squash_merge_commit_title");
    let msg = defaulted_of_member(m, "squash_merge_commit_message");
    match (a, t, msg) {
        (Some(a), Some(t), Some(msg)) => Ok(
            MergeSettings { allow_squash_merge: a, squash_merge_commit_title: t, squash_merge_commit_message: msg },
        ),
        _ => Err(shape),
    }
}

// --- Branches --------------------------------------------------------------------------

/// `gh api repos/{repo}/branches/{branch} --silent`.
pub fn branch_exists_call(repo: &str, branch: &str) -> (r: Invocation)
    ensures
        call_is(r, seq!["api"@, "repos/"@ + repo@ + "/branches/"@ + branch@, "--silent"@], false),
{
    let mut path = concat3("repos/", repo, "/branches/");
    crate::text::push_str(&mut path, branch);
    let mut args: Vec<String> = Vec::new();
    arg(&mut args, "api");
    let ghost a0 = strings(args@);
    push_arg(&mut args, path);
    arg(&mut args, "--silent");
    assert(strings(args@) =~= seq!["api"@, "repos/"@ + repo@ + "/branches/"@ + branch@, "--silent"@]);
    Invocation { args, scoped: false }
}

/// Whether the branch exists: a 404 is an answer, not an error.
pub fn branch_exists(reply: Result<String, GhError>) -> (r: Result<bool, GhError>)
    ensures
        match reply {
            Ok(_) => r == Ok::<bool, GhError>(true),
            Err(e) => if failed_with(reply, seq!["404"@]) {
                r == Ok::<bool, GhError>(false)
            } else {
                r matches Err(x) && x@ == e@
            },
        },
{
    match reply {
        Ok(_) => Ok(true),
        Err(e) => {
            let is_404 = match &e {
                GhError::Failed { stderr, .. } => str_contains(stderr.as_str(), "404"),
                _ => false,
            };
            proof {
                if is_404 {
                    assert(seq!["404"@][0] == "404"@);
                }
            }
            if is_404 {
                Ok(false)
            } else {
                Err(e)
            }
        },
    }
}

/// The arguments of a ref creation.
pub open spec fn ref_post(repo: Seq<char>, reference: Seq<char>, sha: Seq<char>) -> Seq<Seq<char>> {
    seq![
        "api"@,
        "repos/"@ + repo + "/git/refs"@,
        "--method"@,
        "POST"@,
        "-f"@,
        "ref="@ + reference,
        "-f"@,
        "sha="@ + sha,
        "--silent"@,
    ]
}

fn ref_post_call(repo: &str, reference: &str, sha: &str) -> (r: Invocation)
    ensures
        call_is(r, ref_post(repo@, reference@, sha@), false),
{
    let mut args: Vec<String> = Vec::new();
    arg(&mut args, "api");
    push_arg(&mut args, concat3("repos/", repo, "/git/refs"));
    arg(&mut args, "--method");
    arg(&mut args, "POST");
    arg(&mut args, "-f");
    push_arg(&mut args, concat2("ref=", reference));
    arg(&mut args, "-f");
    push_arg(&mut args, concat2("sha=", sha));
    arg(&mut args, "--silent");
    assert(strings(args@) =~= ref_post(repo@, reference@, sha@));
    Invocation { args, scoped: false }
}

/// Create `branch` pointing at `sha`.
pub fn create_branch_at_call(repo: &str, branch: &str, sha: &str) -> (r: Invocation)
    ensures
        call_is(r, ref_post(repo@, "refs/heads/"@ + branch@, sha@), false),
{
    let reference = concat2("refs/heads/", branch);
    ref_post_call(repo, reference.as_str(), sha)
}

pub fn create_branch_at(reply: Result<String, GhError>) -> (r: Result<(), GhError>)
    ensures
        unit_view(r) == unit_of(reply),
{
    discard(reply)
}

/// Create `refs/tags/{tag}` at `sha`.
pub fn create_tag_call(repo: &str, tag: &str, sha: &str) -> (r: Invocation)
    ensures
        call_is(r, ref_post(repo@, "refs/tags/"@ + tag@, sha@), false),
{
    let reference = concat2("refs/tags/", tag);
    ref_post_call(repo, reference.as_str(), sha)
}

/// The tag's creation: a tag that already exists is not an error, so a
/// release can be re-run after a partial failure.
pub fn create_tag(reply: Result<String, GhError>) -> (r: Result<(), GhError>)
    ensures
        if failed_with(reply, seq!["already exists"@, "422"@]) {
            r is Ok
        } else {
            unit_view(r) == unit_of(reply)
        },
{
    match reply {
        Ok(_) => Ok(()),
        Err(e) => {
            let exists = match &e {
                GhError::Failed { stderr, .. } => str_contains(stderr.as_str(), "already exists") || str_contains(stderr.as_str(), "422"),
                _ => false,
            };
            proof {
                let signs = seq!["already exists"@, "422"@];
                assert(signs[0] == "already exists"@ && signs[1] == "422"@);
            }
            if exists {
                Ok(())
            } else {
                Err(e)
            }
        },
    }
}

/// Force `branch` to point at `sha`.
pub fn reset_branch_call(repo: &str, branch: &str, sha: &str) -> (r: Invocation)
    ensures
        call_is(
            r,
            seq![
                "api"@,
                "repos/"@ + repo@ + "/git/refs/heads/"@ + branch@,
                "--method"@,
                "PATCH"@,
                "-f"@,
                "sha="@ + sha@,
                "-F"@,
                "force=true"@,
                "--silent"@,
            ],
            false,
        ),
{
    let mut path = concat3("repos/", repo, "/git/refs/heads/");
    crate::text::push_str(&mut path, branch);
    let mut args: Vec<String> = Vec::new();
    arg(&mut args, "api");
    push_arg(&mut args, path);
    arg(&mut args, "--method");
    arg(&mut args, "PATCH");
    arg(&mut args, "-f");
    push_arg(&mut args, concat2("sha=", sha));
    arg(&mut args, "-F");
    arg(&mut args, "force=true");
    arg(&mut args, "--silent");
    assert(strings(args@) =~= seq![
        "api"@,
        "repos/"@ + repo@ + "/git/refs/heads/"@ + branch@,
        "--method"@,
        "PATCH"@,
        "-f"@,
        "sha="@ + sha@,
        "-F"@,
        "force=true"@,
        "--silent"@,
    ]);
    Invocation { args, scoped: false }
}

pub fn reset_branch(reply: Result<String, GhError>) -> (r: Result<(), GhError>)
    ensures
        unit_view(r) == unit_of(reply),
{
    discard(reply)
}

/// Delete a branch.
pub fn delete_branch_call(repo: &str, branch: &str) -> (r: Invocation)
    ensures
        call_is(
            r,
            seq!["api"@, "repos/"@ + repo@ + "/git/refs/heads/"@ + branch@, "--method"@, "DELETE"@, "--silent"@],
            false,
        ),
{
    let mut path = concat3("repos/", repo, "/git/refs/heads/");
    crate::text::push_str(&mut path, branch);
    let mut args: Vec<String> = Vec::new();
    arg(&mut args, "api");
    push_arg(&mut args, path);
    arg(&mut args, "--method");
    arg(&mut args, "DELETE");
    arg(&mut args, "--silent");
    assert(strings(args@) =~= seq!["api"@, "repos/"@ + repo@ + "/git/refs/heads/"@ + branch@, "--method"@, "DELETE"@, "--silent"@]);
    Invocation { args, scoped: false }
}

/// The deletion: a branch already gone is the desired state.
pub fn delete_branch(reply: Result<String, GhError>) -> (r: Result<(), GhError>)
    ensures
        if failed_with(reply, seq!["404"@, "Reference does not exist"@]) {
            r is Ok
        } else {
            unit_view(r) == unit_of(reply)
        },
{
    match reply {
        Ok(_) => Ok(()),
        Err(e) => {
            let gone = match &e {
                GhError::Failed { stderr, .. } => str_contains(stderr.as_str(), "404") || str_contains(
                    stderr.as_str(),
                    "Reference does not exist",
                ),
                _ => false,
            };
            proof {
                let signs = seq!["404"@, "Reference does not exist"@];
                assert(signs[0] == "404"@ && signs[1] == "Reference does not exist"@);
            }
            if gone {
                Ok(())
            } else {
                Err(e)
            }
        },
    }
}

/// `gh api repos/{repo}/git/matching-refs/heads/{prefix}`, unscoped: the
/// repository is already in the path.
pub fn matching_branches_call(repo: &str, prefix: &str) -> (r: Invocation)
    ensures
        call_is(r, seq!["api"@, "repos/"@ + repo@ + "/git/matching-refs/heads/"@ + prefix@], false),
{
    let mut path = concat3("repos/", repo, "/git/matching-refs/heads/");
    crate::text::push_str(&mut path, prefix);
    let mut args: Vec<String> = Vec::new();
    arg(&mut args, "api");
    push_arg(&mut args, path);
    assert(strings(args@) =~= seq!["api"@, "repos/"@ + repo@ + "/git/matching-refs/heads/"@ + prefix@]);
    Invocation { args, scoped: false }
}

/// The `ref` of each entry of a matching-refs document, when every entry
/// has one.
pub open spec fn decode_refs(j: Json) -> Option<Seq<Seq<char>>> {
    match j {
        Json::Array(items) => all_refs(items@),
        _ => None,
    }
}

pub open spec fn all_refs(items: Seq<Json>) -> Option<Seq<Seq<char>>> {
    if forall|i: int| 0 <= i < items.len() ==> ref_of(#[trigger] items[i]) is Some {
        Some(items.map_values(|x: Json| ref_of(x)->Some_0))
    } else {
        None
    }
}

pub open spec fn ref_of(j: Json) -> Option<Seq<char>> {
    match j {
        Json::Object(m) => string_member(m@, "ref"@),
        _ => None,
    }
}

/// The branch names among refs: those under `refs/heads/`, without it.
pub open spec fn branch_names(refs: Seq<Seq<char>>) -> Seq<Seq<char>>
    decreases refs.len(),
{
    if refs.len() == 0 {
        Seq::empty()
    } else {
        let rest = branch_names(refs.drop_last());
        if text::is_prefix("refs/heads/"@, refs.last()) {
            rest.push(refs.last().skip(11))
        } else {
            rest
        }
    }
}

/// The branches a matching-refs reply lists; none when it cannot be read,
/// since housekeeping must never stop a release.
pub open spec fn matching_of(reply: Result<String, GhError>) -> Seq<Seq<char>> {
    match reply {
        Err(_) => Seq::empty(),
        Ok(out) => match json::json_parsed(out@) {
            Err(_) => Seq::empty(),
            Ok(v) => match decode_refs(v) {
                Some(refs) => branch_names(refs),
                None => Seq::empty(),
            },
        },
    }
}

/// Branch names starting with a prefix, from a matching-refs reply.
pub fn matching_branches(reply: Result<String, GhError>) -> (r: Vec<String>)
    ensures
        strings(r@) == matching_of(reply),
{
    let ghost rep = reply;
    let out = match reply {
        Ok(o) => o,
        Err(_) => return Vec::new(),
    };
    let j = match parse_json(out.as_str()) {
        Ok(v) => v,
        Err(_) => return Vec::new(),
    };
    let Json::Array(items) = &j else {
        return Vec::new();
    };
    let mut refs: Vec<String> = Vec::new();
    let mut i: usize = 0;
    while i < items.len()
        invariant
            i <= items@.len(),
            j == Json::Array(*items),
            rep == reply,
            matching_of(rep) == match all_refs(items@) {
                Some(refs) => branch_names(refs),
                None => Seq::empty(),
            },
            strings(refs@) == items@.take(i as int).map_values(|x: Json| ref_of(x)->Some_0),
            forall|k: int| 0 <= k < i ==> ref_of(#[trigger] items@[k]) is Some,
        decreases items.len() - i,
    {
        let r = match &items[i] {
            Json::Object(m) => string_of_member(m, "ref"),
            _ => None,
        };
        match r {
            Some(x) => {
                let ghost before = strings(refs@);
                let ghost xv = x@;
                refs.push(x);
                assert(strings(refs@) =~= before.push(xv));
                assert(items@.take(i + 1).map_values(|x: Json| ref_of(x)->Some_0) =~= items@.take(i as int).map_values(
                    |x: Json| ref_of(x)->Some_0,
                ).push(xv));
            },
            None => {
                assert(!(ref_of(items@[i as int]) is Some));
                assert(all_refs(items@) is None);
                let e: Vec<String> = Vec::new();
                assert(strings(e@) =~= Seq::<Seq<char>>::empty());
                return e;
            },
        }
        i += 1;
    }
    assert(items@.take(i as int) =~= items@);
    let ghost rs = strings(refs@);
    assert(decode_refs(j) == Some(rs));
    let mut names: Vec<String> = Vec::new();
    let mut k: usize = 0;
    while k < refs.len()
        invariant
            k <= refs@.len(),
            rs == strings(refs@),
            strings(names@) == branch_names(rs.take(k as int)),
        decreases refs.len() - k,
    {
        assert(rs.take(k + 1).drop_last() =~= rs.take(k as int));
        let name = refs[k].as_str();
        if str_starts_with(name, "refs/heads/") {
            proof {
                reveal_strlit("refs/heads/");
            }
            let cs = text::chars_of(name);
            let short = text::string_of_range(cs.as_slice(), 11, cs.len());
            let ghost before = strings(names@);
            let ghost sv = short@;
            names.push(short);
            assert(strings(names@) =~= before.push(sv));
            assert(sv =~= rs[k as int].skip(11));
        }
        k += 1;
    }
    assert(rs.take(k as int) =~= rs);
    names
}

/// `gh api repos/{repo}/git/ref/heads/{branch} --jq .object.sha`.
pub fn branch_sha_call(repo: &str, branch: &str) -> (r: Invocation)
    ensures
        call_is(r, seq!["api"@, "repos/"@ + repo@ + "/git/ref/heads/"@ + branch@, "--jq"@, ".object.sha"@], false),
{
    let mut path = concat3("repos/", repo, "/git/ref/heads/");
    crate::text::push_str(&mut path, branch);
    let mut args: Vec<String> = Vec::new();
    arg(&mut args, "api");
    push_arg(&mut args, path);
    arg(&mut args, "--jq");
    arg(&mut args, ".object.sha");
    assert(strings(args@) =~= seq!["api"@, "repos/"@ + repo@ + "/git/ref/heads/"@ + branch@, "--jq"@, ".object.sha"@]);
    Invocation { args, scoped: false }
}

pub open spec fn trimmed_of(reply: Result<String, GhError>) -> Result<Seq<char>, GhErrorView> {
    match reply {
        Ok(out) => Ok(text::trim(out@)),
        Err(e) => Err(e@),
    }
}

pub open spec fn string_view(r: Result<String, GhError>) -> Result<Seq<char>, GhErrorView> {
    match r {
        Ok(s) => Ok(s@),
        Err(e) => Err(e@),
    }
}

/// The commit SHA at the tip of a branch: the output, trimmed.
pub fn branch_sha(reply: Result<String, GhError>) -> (r: Result<String, GhError>)
    ensures
        string_view(r) == trimmed_of(reply),
{
    match reply {
        Ok(out) => Ok(trimmed(out.as_str())),
        Err(e) => Err(e),
    }
}

// --- Labels ----------------------------------------------------------------------------

/// The colour of the labels gh-ship creates.
pub const LABEL_COLOR: &'static str = "BFD4F2";

/// `gh label list --limit 200 --json name`, scoped.
pub open spec fn label_list_args() -> Seq<Seq<char>> {
    seq!["label"@, "list"@, "--limit"@, "200"@, "--json"@, "name"@]
}

pub fn label_list_call() -> (r: Invocation)
    ensures
        call_is(r, label_list_args(), true),
{
    let mut args: Vec<String> = Vec::new();
    arg(&mut args, "label");
    arg(&mut args, "list");
    arg(&mut args, "--limit");
    arg(&mut args, "200");
    arg(&mut args, "--json");
    arg(&mut args, "name");
    assert(strings(args@) =~= label_list_args());
    Invocation { args, scoped: true }
}

/// The listing of the repository's labels, which only a Release PR that
/// wants labels needs: with none wanted, nothing is listed or created.
pub fn label_listing(labels: &[String]) -> (r: Option<Invocation>)
    ensures
        labels@.len() == 0 ==> r is None,
        labels@.len() > 0 ==> (r matches Some(c) && call_is(c, label_list_args(), true)),
{
    if labels.len() == 0 {
        None
    } else {
        Some(label_list_call())
    }
}

pub open spec fn name_of(j: Json) -> Option<Seq<char>> {
    match j {
        Json::Object(m) => string_member(m@, "name"@),
        _ => None,
    }
}

pub open spec fn all_names(items: Seq<Json>) -> Seq<Seq<char>> {
    if forall|i: int| 0 <= i < items.len() ==> name_of(#[trigger] items[i]) is Some {
        items.map_values(|x: Json| name_of(x)->Some_0)
    } else {
        Seq::empty()
    }
}

/// The label names a list reply gives; none when it cannot be read, so
/// that creation sorts it out.
pub open spec fn label_names_of(reply: Result<String, GhError>) -> Seq<Seq<char>> {
    match reply {
        Err(_) => Seq::empty(),
        Ok(out) => match json::json_parsed(out@) {
            Ok(Json::Array(items)) => all_names(items@),
            _ => Seq::empty(),
        },
    }
}

/// The existing label names, from a label list reply.
pub fn label_names(reply: Result<String, GhError>) -> (r: Vec<String>)
    ensures
        strings(r@) == label_names_of(reply),
{
    let ghost rep = reply;
    let out = match reply {
        Ok(o) => o,
        Err(_) => return Vec::new(),
    };
    let j = match parse_json(out.as_str()) {
        Ok(v) => v,
        Err(_) => return Vec::new(),
    };
    let Json::Array(items) = &j else {
        return Vec::new();
    };
    let mut names: Vec<String> = Vec::new();
    let mut i: usize = 0;
    while i < items.len()
        invariant
            i <= items@.len(),
            j == Json::Array(*items),
            rep == reply,
            label_names_of(rep) == all_names(items@),
            strings(names@) == items@.take(i as int).map_values(|x: Json| name_of(x)->Some_0),
            forall|k: int| 0 <= k < i ==> name_of(#[trigger] items@[k]) is Some,
        decreases items.len() - i,
    {
        let r = match &items[i] {
            Json::Object(m) => string_of_member(m, "name"),
            _ => None,
        };
        match r {
            Some(x) => {
                let ghost before = strings(names@);
                let ghost xv = x@;
                names.push(x);
                assert(strings(names@) =~= before.push(xv));
                assert(items@.take(i + 1).map_values(|x: Json| name_of(x)->Some_0) =~= items@.take(i as int).map_values(
                    |x: Json| name_of(x)->Some_0,
                ).push(xv));
            },
            None => {
                assert(!(name_of(items@[i as int]) is Some));
                let e: Vec<String> = Vec::new();
                assert(strings(e@) =~= Seq::<Seq<char>>::empty());
                return e;
            },
        }
        i += 1;
    }
    assert(items@.take(i as int) =~= items@);
    names
}

/// `gh label create {name} --color BFD4F2 --description "Created by gh-ship"`, scoped.
pub fn create_label_call(name: &str) -> (r: Invocation)
    ensures
        call_is(
            r,
            seq!["label"@, "create"@, name@, "--color"@, LABEL_COLOR@, "--description"@, "Created by gh-ship"@],
            true,
        ),
{
    let mut args: Vec<String> = Vec::new();
    arg(&mut args, "label");
    arg(&mut args, "create");
    arg(&mut args, name);
    arg(&mut args, "--color");
    arg(&mut args, LABEL_COLOR);
    arg(&mut args, "--description");
    arg(&mut args, "Created by gh-ship");
    assert(strings(args@) =~= seq!["label"@, "create"@, name@, "--color"@, LABEL_COLOR@, "--description"@, "Created by gh-ship"@]);
    Invocation { args, scoped: true }
}

/// Whether a label exists among `existing`, names compared without case.
pub open spec fn label_known(existing: Seq<Seq<char>>, label: Seq<char>) -> bool {
    exists|i: int| 0 <= i < existing.len() && text::eq_ignore_ascii_case(#[trigger] existing[i], label)
}

pub fn label_exists(existing: &[String], label: &str) -> (r: bool)
    ensures
        r == label_known(strings(existing@), label@),
{
    let mut i: usize = 0;
    while i < existing.len()
        invariant
            i <= existing@.len(),
            forall|k: int| 0 <= k < i ==> !text::eq_ignore_ascii_case(#[trigger] strings(existing@)[k], label@),
        decreases existing.len() - i,
    {
        if str_eq_ignore_ascii_case(existing[i].as_str(), label) {
            assert(text::eq_ignore_ascii_case(strings(existing@)[i as int], label@));
            return true;
        }
        i += 1;
    }
    false
}

/// The call that creates `label`, when it does not exist yet: GitHub
/// label names are unique regardless of case, so an existing one that
/// differs only in case is used rather than created.
pub fn label_to_create(existing: &[String], label: &str) -> (r: Option<Invocation>)
    ensures
        label_known(strings(existing@), label@) ==> r is None,
        !label_known(strings(existing@), label@) ==> (r matches Some(c) && call_is(
            c,
            seq!["label"@, "create"@, label@, "--color"@, LABEL_COLOR@, "--description"@, "Created by gh-ship"@],
            true,
        )),
{
    if label_exists(existing, label) {
        None
    } else {
        Some(create_label_call(label))
    }
}

/// Labels split into those safe to apply and those dropped: a label that
/// exists (in any case) is kept; a missing one is kept when its creation
/// succeeded (`created[i]`), dropped otherwise.
pub open spec fn label_split(existing: Seq<Seq<char>>, labels: Seq<Seq<char>>, created: Seq<bool>) -> (Seq<Seq<char>>, Seq<Seq<char>>)
    decreases labels.len(),
{
    if labels.len() == 0 {
        (Seq::empty(), Seq::empty())
    } else {
        let (u, d) = label_split(existing, labels.drop_last(), created.take(labels.len() - 1));
        let l = labels.last();
        if label_known(existing, l) || created[labels.len() - 1] {
            (u.push(l), d)
        } else {
            (u, d.push(l))
        }
    }
}

/// Every requested label ends up used or dropped, never both and never
/// lost, and only a label that neither existed nor could be created is
/// dropped.
pub proof fn lemma_labels_partition(existing: Seq<Seq<char>>, labels: Seq<Seq<char>>, created: Seq<bool>)
    requires
        created.len() == labels.len(),
    ensures
        label_split(existing, labels, created).0.len() + label_split(existing, labels, created).1.len() == labels.len(),
        forall|x: Seq<char>| label_split(existing, labels, created).1.contains(x) ==> !label_known(existing, x),
    decreases labels.len(),
{
    if labels.len() > 0 {
        let prev_created = created.take(labels.len() - 1);
        lemma_labels_partition(existing, labels.drop_last(), prev_created);
        let (u, d) = label_split(existing, labels.drop_last(), prev_created);
        let l = labels.last();
        assert forall|x: Seq<char>| label_split(existing, labels, created).1.contains(x) implies !label_known(existing, x) by {
            if !(label_known(existing, l) || created[labels.len() - 1]) {
                let dd = d.push(l);
                let k = choose|k: int| 0 <= k < dd.len() && dd[k] == x;
                if k < d.len() {
                    assert(d[k] == x);
                    assert(d.contains(x));
                }
            }
        }
    }
}

/// Ensure every requested label exists: returns `(usable, dropped)`. A
/// missing label never takes the Release PR down with it.
pub fn ensure_labels(labels: &[String], existing: &[String], created: &[bool]) -> (r: (Vec<String>, Vec<String>))
    requires
        created@.len() == labels@.len(),
    ensures
        (strings(r.0@), strings(r.1@)) == label_split(strings(existing@), strings(labels@), created@),
        labels@.len() == 0 ==> r.0@.len() == 0 && r.1@.len() == 0,
{
    let ghost ls = strings(labels@);
    let ghost ex = strings(existing@);
    let mut usable: Vec<String> = Vec::new();
    let mut dropped: Vec<String> = Vec::new();
    let mut i: usize = 0;
    assert(ls.take(0) =~= Seq::<Seq<char>>::empty());
    while i < labels.len()
        invariant
            i <= labels@.len(),
            created@.len() == labels@.len(),
            ls == strings(labels@),
            ex == strings(existing@),
            (strings(usable@), strings(dropped@)) == label_split(ex, ls.take(i as int), created@.take(i as int)),
        decreases labels.len() - i,
    {
        assert(ls.take(i + 1).drop_last() =~= ls.take(i as int));
        assert(created@.take(i + 1).take(i as int) =~= created@.take(i as int));
        assert(ls.take(i + 1).last() == labels@[i as int]@);
        let keep = label_exists(existing, labels[i].as_str()) || created[i];
        let l = labels[i].clone();
        let ghost lv = l@;
        if keep {
            let ghost before = strings(usable@);
            usable.push(l);
            assert(strings(usable@) =~= before.push(lv));
        } else {
            let ghost before = strings(dropped@);
            dropped.push(l);
            assert(strings(dropped@) =~= before.push(lv));
        }
        i += 1;
    }
    assert(ls.take(i as int) =~= ls);
    assert(created@.take(i as int) =~= created@);
    (usable, dropped)
}

// --- Pull requests -------------------------------------------------------------------------

/// The subset of PR fields gh-ship needs.
#[derive(Debug, Clone)]
pub struct PullRequest {
    pub number: u64,
    pub url: String,
    pub title: String,
    pub body: String,
    pub state: String,
    pub merge_commit: Option<Commit>,
}

#[derive(Debug, Clone)]
pub struct Commit {
    pub oid: String,
}

pub struct PullRequestView {
    pub number: u64,
    pub url: Seq<char>,
    pub title: Seq<char>,
    pub body: Seq<char>,
    pub state: Seq<char>,
    pub merge_commit: Option<Seq<char>>,
}

impl View for PullRequest {
    type V = PullRequestView;

    open spec fn view(&self) -> PullRequestView {
        PullRequestView {
            number: self.number,
            url: self.url@,
            title: self.title@,
            body: self.body@,
            state: self.state@,
            merge_commit: match self.merge_commit {
                Some(c) => Some(c.oid@),
                None => None,
            },
        }
    }
}

impl PullRequest {
    pub fn is_merged(&self) -> (r: bool)
        ensures
            r == text::eq_ignore_ascii_case(self.state@, "merged"@),
    {
        state::is_merged(self.state.as_str())
    }

    pub fn is_open(&self) -> (r: bool)
        ensures
            r == text::eq_ignore_ascii_case(self.state@, "open"@),
    {
        state::is_open(self.state.as_str())
    }

    /// The commit the PR landed as: the only trustworthy SHA after a
    /// squash or rebase merge.
    pub fn merged_sha(&self) -> (r: Option<&str>)
        ensures
            match self.merge_commit {
                Some(c) => r matches Some(x) && x@ == c.oid@,
                None => r is None,
            },
    {
        match &self.merge_commit {
            Some(c) => Some(c.oid.as_str()),
            None => None,
        }
    }
}

/// The fields gh-ship asks for.
pub const PR_FIELDS: &'static str = "number,url,title,body,state,mergeCommit";

/// The merge commit member: absent and `null` are none.
pub open spec fn merge_commit_of(m: Seq<(String, Json)>) -> Option<Option<Seq<char>>> {
    match codec::member(m, "mergeCommit"@) {
        None => Some(None),
        Some(Json::Null) => Some(None),
        Some(Json::Object(c)) => match string_member(c@, "oid"@) {
            Some(o) => Some(Some(o)),
            None => None,
        },
        _ => None,
    }
}

/// A pull request document: `number` required, the strings defaulting to
/// empty, `mergeCommit` optional.
pub open spec fn decode_pull_request(j: Json) -> Option<PullRequestView> {
    match j {
        Json::Object(m) => match (
            codec::member(m@, "number"@),
            defaulted_string(m@, "url"@),
            defaulted_string(m@, "title"@),
            defaulted_string(m@, "body"@),
            defaulted_string(m@, "state"@),
            merge_commit_of(m@),
        ) {
            (Some(Json::Number(n)), Some(url), Some(title), Some(body), Some(state), Some(mc)) => match n.as_u64 {
                Some(number) => Some(PullRequestView { number, url, title, body, state, merge_commit: mc }),
                None => None,
            },
            _ => None,
        },
        _ => None,
    }
}

fn pull_request_of(j: &Json) -> (r: Option<PullRequest>)
    ensures
        match decode_pull_request(*j) {
            Some(v) => r matches Some(x) && x@ == v,
            None => r is None,
        },
{
    let Json::Object(m) = j else {
        return None;
    };
    let number = match codec::find_member(m, "number") {
        Some(Json::Number(n)) => match n.as_u64 {
            Some(x) => x,
            None => return None,
        },
        _ => return None,
    };
    let url = match defaulted_of_member(m, "url") {
        Some(s) => s,
        None => return None,
    };
    let title = match defaulted_of_member(m, "title") {
        Some(s) => s,
        None => return None,
    };
    let body = match defaulted_of_member(m, "body") {
        Some(s) => s,
        None => return None,
    };
    let state = match defaulted_of_member(m, "state") {
        Some(s) => s,
        None => return None,
    };
    let merge_commit = match codec::find_member(m, "mergeCommit") {
        None => None,
        Some(Json::Null) => None,
        Some(Json::Object(c)) => match string_of_member(c, "oid") {
            Some(o) => Some(Commit { oid: o }),
            None => return None,
        },
        _ => return None,
    };
    Some(PullRequest { number, url, title, body, state, merge_commit })
}

/// The first of a list of pull request documents, when every one reads.
pub open spec fn decode_first_pull_request(j: Json) -> Option<Option<PullRequestView>> {
    match j {
        Json::Array(items) => if forall|i: int| 0 <= i < items@.len() ==> decode_pull_request(#[trigger] items@[i]) is Some {
            if items@.len() == 0 {
                Some(None)
            } else {
                Some(decode_pull_request(items@[0]))
            }
        } else {
            None
        },
        _ => None,
    }
}

fn first_pull_request_of(j: &Json) -> (r: Option<Option<PullRequest>>)
    ensures
        match decode_first_pull_request(*j) {
            Some(Some(v)) => r matches Some(Some(x)) && x@ == v,
            Some(None) => r matches Some(None),
            None => r is None,
        },
{
    let Json::Array(items) = j else {
        return None;
    };
    let mut first: Option<PullRequest> = None;
    let mut i: usize = 0;
    while i < items.len()
        invariant
            i <= items@.len(),
            *j == Json::Array(*items),
            forall|k: int| 0 <= k < i ==> decode_pull_request(#[trigger] items@[k]) is Some,
            i == 0 ==> first is None,
            i > 0 ==> (first matches Some(x) && decode_pull_request(items@[0]) == Some(x@)),
        decreases items.len() - i,
    {
        match pull_request_of(&items[i]) {
            Some(p) => {
                if i == 0 {
                    first = Some(p);
                }
            },
            None => return None,
        }
        i += 1;
    }
    Some(first)
}

/// `gh pr list --head {head} --base {base} --state {state} --limit 1 --json ...`, scoped.
pub fn find_pull_request_call(head: &str, base: &str, state: &str) -> (r: Invocation)
    ensures
        call_is(
            r,
            seq![
                "pr"@,
                "list"@,
                "--head"@,
                head@,
                "--base"@,
                base@,
                "--state"@,
                state@,
                "--limit"@,
                "1"@,
                "--json"@,
                PR_FIELDS@,
            ],
            true,
        ),
{
    let mut args: Vec<String> = Vec::new();
    arg(&mut args, "pr");
    arg(&mut args, "list");
    arg(&mut args, "--head");
    arg(&mut args, head);
    arg(&mut args, "--base");
    arg(&mut args, base);
    arg(&mut args, "--state");
    arg(&mut args, state);
    arg(&mut args, "--limit");
    arg(&mut args, "1");
    arg(&mut args, "--json");
    arg(&mut args, PR_FIELDS);
    assert(strings(args@) =~= seq![
        "pr"@,
        "list"@,
        "--head"@,
        head@,
        "--base"@,
        base@,
        "--state"@,
        state@,
        "--limit"@,
        "1"@,
        "--json"@,
        PR_FIELDS@,
    ]);
    Invocation { args, scoped: true }
}

pub open spec fn opt_pr_outcome(r: Result<Option<PullRequest>, GhError>) -> Result<Option<PullRequestView>, GhErrorView> {
    match r {
        Ok(Some(p)) => Ok(Some(p@)),
        Ok(None) => Ok(None),
        Err(e) => Err(e@),
    }
}

/// The Release PR a list reply names, if any. Open PRs are asked for
/// first, then PRs in any state, so a PR merged a moment ago is found.
pub fn find_pull_request(reply: Result<String, GhError>, display: &str) -> (r: Result<Option<PullRequest>, GhError>)
    ensures
        opt_pr_outcome(r) == decoded(reply, display@, |j: Json| decode_first_pull_request(j)),
{
    let j = reply_json(reply, display)?;
    match first_pull_request_of(&j) {
        Some(p) => Ok(p),
        None => Err(GhError::Decode { args: owned(display), message: owned("the JSON does not have the expected shape") }),
    }
}

/// The arguments of a Release PR lookup in one state.
pub open spec fn lookup_args(head: Seq<char>, base: Seq<char>, state: Seq<char>) -> Seq<Seq<char>> {
    seq!["pr"@, "list"@, "--head"@, head, "--base"@, base, "--state"@, state, "--limit"@, "1"@, "--json"@, PR_FIELDS@]
}

/// The first lookup of the Release PR: open PRs only.
pub fn open_lookup_call(head: &str, base: &str) -> (r: Invocation)
    ensures
        call_is(r, lookup_args(head@, base@, "open"@), true),
{
    find_pull_request_call(head, base, "open")
}

/// What follows the lookup of open PRs.
#[derive(Debug)]
pub enum PrLookup {
    /// The lookup is over, with this outcome.
    Done(Result<Option<PullRequest>, GhError>),
    /// No open PR: ask again with this call, for PRs in any state, so a
    /// PR merged a moment ago is found.
    AskAnyState(Invocation),
}

/// Decide after asking for the open Release PR from `head` into `base`:
/// an open PR or a failure ends the lookup; none found asks again for
/// any state, whose reply [`find_pull_request`] reads.
pub fn after_open_lookup(head: &str, base: &str, reply: Result<String, GhError>, display: &str) -> (r: PrLookup)
    ensures
        match decoded(reply, display@, |j: Json| decode_first_pull_request(j)) {
            Ok(Some(p)) => r matches PrLookup::Done(Ok(Some(x))) && x@ == p,
            Ok(None) => r matches PrLookup::AskAnyState(c) && call_is(c, lookup_args(head@, base@, "all"@), true),
            Err(e) => r matches PrLookup::Done(Err(x)) && x@ == e,
        },
{
    match find_pull_request(reply, display) {
        Ok(None) => PrLookup::AskAnyState(find_pull_request_call(head, base, "all")),
        other => PrLookup::Done(other),
    }
}

/// `gh pr view {number} --json ...`, scoped.
pub fn view_pull_request_call(number: u64) -> (r: Invocation)
    ensures
        call_is(r, seq!["pr"@, "view"@, codec::dec_text(number as nat), "--json"@, PR_FIELDS@], true),
{
    let mut args: Vec<String> = Vec::new();
    arg(&mut args, "pr");
    arg(&mut args, "view");
    push_arg(&mut args, codec::dec_string(number));
    arg(&mut args, "--json");
    arg(&mut args, PR_FIELDS);
    assert(strings(args@) =~= seq!["pr"@, "view"@, codec::dec_text(number as nat), "--json"@, PR_FIELDS@]);
    Invocation { args, scoped: true }
}

pub open spec fn pr_outcome(r: Result<PullRequest, GhError>) -> Result<PullRequestView, GhErrorView> {
    match r {
        Ok(p) => Ok(p@),
        Err(e) => Err(e@),
    }
}

/// The pull request a view reply describes.
pub fn view_pull_request(reply: Result<String, GhError>, display: &str) -> (r: Result<PullRequest, GhError>)
    ensures
        pr_outcome(r) == decoded(reply, display@, |j: Json| decode_pull_request(j)),
{
    let j = reply_json(reply, display)?;
    match pull_request_of(&j) {
        Some(p) => Ok(p),
        None => Err(GhError::Decode { args: owned(display), message: owned("the JSON does not have the expected shape") }),
    }
}

/// `flag value` pairs, one per label.
pub open spec fn label_flags(flag: Seq<char>, labels: Seq<Seq<char>>) -> Seq<Seq<char>>
    decreases labels.len(),
{
    if labels.len() == 0 {
        Seq::empty()
    } else {
        label_flags(flag, labels.drop_last()).push(flag).push(labels.last())
    }
}

fn push_label_flags(args: &mut Vec<String>, flag: &str, labels: &[String])
    ensures
        strings(final(args)@) == strings(old(args)@) + label_flags(flag@, strings(labels@)),
{
    let ghost start = strings(args@);
    let ghost ls = strings(labels@);
    let mut i: usize = 0;
    assert(ls.take(0) =~= Seq::<Seq<char>>::empty());
    assert(start + label_flags(flag@, ls.take(0)) =~= start);
    while i < labels.len()
        invariant
            i <= labels@.len(),
            ls == strings(labels@),
            strings(args@) == start + label_flags(flag@, ls.take(i as int)),
        decreases labels.len() - i,
    {
        assert(ls.take(i + 1).drop_last() =~= ls.take(i as int));
        let ghost before = strings(args@);
        arg(args, flag);
        let l = labels[i].clone();
        let ghost lv = l@;
        push_arg(args, l);
        assert(start + label_flags(flag@, ls.take(i + 1)) =~= before.push(flag@).push(lv));
        i += 1;
    }
    assert(ls.take(i as int) =~= ls);
}

/// `gh pr create --head .. --base .. --title .. --body .. [--label ..]`, scoped.
pub fn create_pull_request_call(head: &str, base: &str, title: &str, body: &str, labels: &[String]) -> (r: Invocation)
    ensures
        call_is(
            r,
            seq!["pr"@, "create"@, "--head"@, head@, "--base"@, base@, "--title"@, title@, "--body"@, body@]
                + label_flags("--label"@, strings(labels@)),
            true,
        ),
{
    let mut args: Vec<String> = Vec::new();
    arg(&mut args, "pr");
    arg(&mut args, "create");
    arg(&mut args, "--head");
    arg(&mut args, head);
    arg(&mut args, "--base");
    arg(&mut args, base);
    arg(&mut args, "--title");
    arg(&mut args, title);
    arg(&mut args, "--body");
    arg(&mut args, body);
    assert(strings(args@) =~= seq!["pr"@, "create"@, "--head"@, head@, "--base"@, base@, "--title"@, title@, "--body"@, body@]);
    push_label_flags(&mut args, "--label", labels);
    Invocation { args, scoped: true }
}

/// The new PR's URL: the output, trimmed.
pub fn create_pull_request(reply: Result<String, GhError>) -> (r: Result<String, GhError>)
    ensures
        string_view(r) == trimmed_of(reply),
{
    branch_sha(reply)
}

/// `gh pr edit {number} --title .. --body .. [--add-label ..]`, scoped.
pub fn update_pull_request_call(number: u64, title: &str, body: &str, labels: &[String]) -> (r: Invocation)
    ensures
        call_is(
            r,
            seq!["pr"@, "edit"@, codec::dec_text(number as nat), "--title"@, title@, "--body"@, body@]
                + label_flags("--add-label"@, strings(labels@)),
            true,
        ),
{
    let mut args: Vec<String> = Vec::new();
    arg(&mut args, "pr");
    arg(&mut args, "edit");
    push_arg(&mut args, codec::dec_string(number));
    arg(&mut args, "--title");
    arg(&mut args, title);
    arg(&mut args, "--body");
    arg(&mut args, body);
    assert(strings(args@) =~= seq!["pr"@, "edit"@, codec::dec_text(number as nat), "--title"@, title@, "--body"@, body@]);
    push_label_flags(&mut args, "--add-label", labels);
    Invocation { args, scoped: true }
}

pub fn update_pull_request(reply: Result<String, GhError>) -> (r: Result<(), GhError>)
    ensures
        unit_view(r) == unit_of(reply),
{
    discard(reply)
}

fn pr_number_call(verb: &str, number: u64) -> (r: Invocation)
    ensures
        call_is(r, seq!["pr"@, verb@, codec::dec_text(number as nat)], true),
{
    let mut args: Vec<String> = Vec::new();
    arg(&mut args, "pr");
    arg(&mut args, verb);
    push_arg(&mut args, codec::dec_string(number));
    assert(strings(args@) =~= seq!["pr"@, verb@, codec::dec_text(number as nat)]);
    Invocation { args, scoped: true }
}

/// `gh pr reopen {number}`, scoped.
pub fn reopen_pull_request_call(number: u64) -> (r: Invocation)
    ensures
        call_is(r, seq!["pr"@, "reopen"@, codec::dec_text(number as nat)], true),
{
    pr_number_call("reopen", number)
}

pub fn reopen_pull_request(reply: Result<String, GhError>) -> (r: Result<(), GhError>)
    ensures
        unit_view(r) == unit_of(reply),
{
    discard(reply)
}

/// `gh pr close {number}`, scoped.
pub fn close_pull_request_call(number: u64) -> (r: Invocation)
    ensures
        call_is(r, seq!["pr"@, "close"@, codec::dec_text(number as nat)], true),
{
    pr_number_call("close", number)
}

pub fn close_pull_request(reply: Result<String, GhError>) -> (r: Result<(), GhError>)
    ensures
        unit_view(r) == unit_of(reply),
{
    discard(reply)
}

/// `gh pr merge {number} --merge`, scoped.
pub fn merge_pull_request_call(number: u64) -> (r: Invocation)
    ensures
        call_is(r, seq!["pr"@, "merge"@, codec::dec_text(number as nat), "--merge"@], true),
{
    let mut c = pr_number_call("merge", number);
    let ghost before = strings(c.args@);
    arg(&mut c.args, "--merge");
    assert(strings(c.args@) =~= seq!["pr"@, "merge"@, codec::dec_text(number as nat), "--merge"@]);
    c
}

pub fn merge_pull_request(reply: Result<String, GhError>) -> (r: Result<(), GhError>)
    ensures
        unit_view(r) == unit_of(reply),
{
    discard(reply)
}

// --- Releases ----------------------------------------------------------------------------

/// Everything `gh release create` needs.
pub struct NewRelease<'a> {
    pub tag: &'a str,
    pub target: &'a str,
    pub name: &'a str,
    pub notes: &'a str,
    pub draft: bool,
    pub prerelease: bool,
    /// `None` when the artifact did not say: the flag is then omitted and
    /// GitHub applies its own rule.
    pub make_latest: Option<bool>,
}

/// The arguments of a release creation.
pub open spec fn release_args(r: NewRelease) -> Seq<Seq<char>> {
    let base = seq![
        "release"@,
        "create"@,
        r.tag@,
        "--target"@,
        r.target@,
        "--title"@,
        r.name@,
        "--notes"@,
        r.notes@,
    ];
    let a = if r.draft { base.push("--draft"@) } else { base };
    let b = if r.prerelease { a.push("--prerelease"@) } else { a };
    match r.make_latest {
        Some(true) => b.push("--latest=true"@),
        Some(false) => b.push("--latest=false"@),
        None => b,
    }
}

/// `gh release create ...`, scoped.
pub fn create_release_call(release: &NewRelease) -> (r: Invocation)
    ensures
        call_is(r, release_args(*release), true),
{
    let mut args: Vec<String> = Vec::new();
    arg(&mut args, "release");
    arg(&mut args, "create");
    arg(&mut args, release.tag);
    arg(&mut args, "--target");
    arg(&mut args, release.target);
    arg(&mut args, "--title");
    arg(&mut args, release.name);
    arg(&mut args, "--notes");
    arg(&mut args, release.notes);
    let ghost base = strings(args@);
    if release.draft {
        arg(&mut args, "--draft");
    }
    let ghost a = strings(args@);
    if release.prerelease {
        arg(&mut args, "--prerelease");
    }
    let ghost b = strings(args@);
    match release.make_latest {
        Some(true) => arg(&mut args, "--latest=true"),
        Some(false) => arg(&mut args, "--latest=false"),
        None => {},
    }
    assert(strings(args@) =~= release_args(*release));
    Invocation { args, scoped: true }
}

/// The new release's URL: the output, trimmed.
pub fn create_release(reply: Result<String, GhError>) -> (r: Result<String, GhError>)
    ensures
        string_view(r) == trimmed_of(reply),
{
    branch_sha(reply)
}

/// `gh release edit {tag} --draft=false`, scoped.
pub fn publish_release_call(tag: &str) -> (r: Invocation)
    ensures
        call_is(r, seq!["release"@, "edit"@, tag@, "--draft=false"@], true),
{
    let mut args: Vec<String> = Vec::new();
    arg(&mut args, "release");
    arg(&mut args, "edit");
    arg(&mut args, tag);
    arg(&mut args, "--draft=false");
    assert(strings(args@) =~= seq!["release"@, "edit"@, tag@, "--draft=false"@]);
    Invocation { args, scoped: true }
}

pub fn publish_release(reply: Result<String, GhError>) -> (r: Result<(), GhError>)
    ensures
        unit_view(r) == unit_of(reply),
{
    discard(reply)
}

/// `gh release view {tag} --json tagName`, scoped.
pub fn release_exists_call(tag: &str) -> (r: Invocation)
    ensures
        call_is(r, seq!["release"@, "view"@, tag@, "--json"@, "tagName"@], true),
{
    let mut args: Vec<String> = Vec::new();
    arg(&mut args, "release");
    arg(&mut args, "view");
    arg(&mut args, tag);
    arg(&mut args, "--json");
    arg(&mut args, "tagName");
    assert(strings(args@) =~= seq!["release"@, "view"@, tag@, "--json"@, "tagName"@]);
    Invocation { args, scoped: true }
}

/// Whether a release exists: "not found" is an answer.
pub fn release_exists(reply: Result<String, GhError>) -> (r: Result<bool, GhError>)
    ensures
        match reply {
            Ok(_) => r == Ok::<bool, GhError>(true),
            Err(e) => if failed_with(reply, seq!["release not found"@, "404"@]) {
                r == Ok::<bool, GhError>(false)
            } else {
                r matches Err(x) && x@ == e@
            },
        },
{
    match reply {
        Ok(_) => Ok(true),
        Err(e) => {
            let missing = match &e {
                GhError::Failed { stderr, .. } => str_contains(stderr.as_str(), "release not found") || str_contains(stderr.as_str(), "404"),
                _ => false,
            };
            proof {
                let signs = seq!["release not found"@, "404"@];
                assert(signs[0] == "release not found"@ && signs[1] == "404"@);
            }
            if missing {
                Ok(false)
            } else {
                Err(e)
            }
        },
    }
}

} // verus!
