//! `gh ship validate`, setup mode: are the configured workflows usable?

use vstd::prelude::*;

use crate::artifact::codec;
use crate::artifact::model::strings_view;
use crate::artifact::validate::{comma_joined, comma_list, plural, plural_of, views};
use crate::branches::{self, entries_of, has_star, is_pattern, resolved, BranchError, BranchErrorView};
use crate::config::{self, Config};
use crate::gh::repo::{MergeSettings, SQUASH_MESSAGE_BLANK, SQUASH_TITLE_PR};
use crate::gh::workflow::{
    declares_legacy, role_violations, describe_of, find, find_index, slug_of, violation_help, violation_message, views as workflow_views, Workflow,
    WORKFLOW_DIR,
};
use crate::logger::{self, detail_text, note_text, ok_text, skip_text, warn_text};
use crate::style::Theme;
use crate::templates::Role;
use crate::suggest::{did_you_mean, str_views, suggestion};
use crate::text::{concat2, concat3, owned, push_str, str_eq, string_views};

verus! {

/// A problem with a configured workflow.
#[derive(Debug, Clone)]
pub struct WorkflowIssue {
    pub workflow: String,
    pub problem: String,
    pub help: Option<String>,
}

pub struct WorkflowIssueView {
    pub workflow: Seq<char>,
    pub problem: Seq<char>,
    pub help: Option<Seq<char>>,
}

impl View for WorkflowIssue {
    type V = WorkflowIssueView;

    open spec fn view(&self) -> WorkflowIssueView {
        WorkflowIssueView {
            workflow: self.workflow@,
            problem: self.problem@,
            help: match self.help {
                Some(h) => Some(h@),
                None => None,
            },
        }
    }
}

impl WorkflowIssue {
    /// The diagnostic code of a problem with a configured workflow.
    pub fn code(&self) -> (r: &'static str)
        ensures
            r@ == "ship::validate::workflow"@,
    {
        "ship::validate::workflow"
    }

    pub fn message(&self) -> (r: String)
        ensures
            r@ == "workflow `"@ + self.workflow@ + "` "@ + self.problem@,
    {
        let mut out = concat3("workflow `", self.workflow.as_str(), "` ");
        push_str(&mut out, self.problem.as_str());
        out
    }
}

/// Every problem the setup has, reported together.
#[derive(Debug, Clone)]
pub struct SetupInvalid {
    pub issues: Vec<WorkflowIssue>,
}

/// Where the workflow contract is explained.
pub const SETUP_HELP: &'static str = "see https://noirbizarre.github.io/gh-ship/workflows/ for the workflow contract";

impl SetupInvalid {
    /// The diagnostic code of a setup with problems.
    pub fn code(&self) -> (r: &'static str)
        ensures
            r@ == "ship::validate::setup"@,
    {
        "ship::validate::setup"
    }

    pub fn message(&self) -> (r: String)
        ensures
            r@ == "the gh-ship setup has "@ + codec::dec_text(self.issues@.len()) + " problem"@ + plural_of(
                self.issues@.len(),
            ),
    {
        let n = codec::dec_string(self.issues.len() as u64);
        let mut out = concat2("the gh-ship setup has ", n.as_str());
        push_str(&mut out, " problem");
        push_str(&mut out, plural(self.issues.len()));
        out
    }
}

/// The slugs of the workflows found.
pub open spec fn slugs_of(ws: Seq<Workflow>) -> Seq<Seq<char>> {
    ws.map_values(|w: Workflow| slug_of(w@))
}

/// The help a configured name that matches no workflow gets.
pub open spec fn missing_help(available: Seq<Workflow>, name: Seq<char>) -> Seq<char> {
    if available.len() == 0 {
        "no workflows found under "@ + WORKFLOW_DIR@ + " — run `gh ship init` to generate one"@
    } else {
        match suggestion(name, slugs_of(available)) {
            Some(s) => "did you mean `"@ + s + "`?"@,
            None => "available workflows: "@ + comma_list(slugs_of(available)),
        }
    }
}

/// The role a `workflows.{key}` entry fills.
pub open spec fn role_of_key(key: Seq<char>) -> Role {
    if key == "prepare"@ {
        Role::Prepare
    } else {
        Role::Publish
    }
}

fn role_for(key: &str) -> (r: Role)
    ensures
        r == role_of_key(key@),
{
    if str_eq(key, "prepare") {
        Role::Prepare
    } else {
        Role::Publish
    }
}

/// The issues one configured workflow raises: it is missing, or each way
/// it violates the contract of the role it is configured for.
pub open spec fn workflow_issues(available: Seq<Workflow>, name: Seq<char>, key: Seq<char>) -> Seq<WorkflowIssueView> {
    match find_index(workflow_views(available), name) {
        None => seq![WorkflowIssueView {
            workflow: name,
            problem: "(configured as `workflows."@ + key + "`) was not found"@,
            help: Some(missing_help(available, name)),
        }],
        Some(i) => role_violations(available[i]@, role_of_key(key)).map_values(|v| WorkflowIssueView {
            workflow: slug_of(available[i]@),
            problem: violation_message(v),
            help: Some(violation_help(v)),
        }),
    }
}

pub open spec fn issues_view(v: Seq<WorkflowIssue>) -> Seq<WorkflowIssueView> {
    v.map_values(|i: WorkflowIssue| i@)
}

/// Check the workflow configured as `workflows.{key}` under `name`.
pub fn check_workflow(available: &[Workflow], name: &str, key: &str) -> (r: Vec<WorkflowIssue>)
    ensures
        issues_view(r@) == workflow_issues(available@, name@, key@),
{
    match find(available, name) {
        None => {
            let mut slugs: Vec<String> = Vec::new();
            let mut i: usize = 0;
            while i < available.len()
                invariant
                    i <= available@.len(),
                    strings_view(slugs@) == slugs_of(available@).take(i as int),
                decreases available.len() - i,
            {
                let r = available[i].to_ref();
                let ghost before = strings_view(slugs@);
                let ghost s = r.slug@;
                assert(s == slugs_of(available@)[i as int]);
                slugs.push(r.slug);
                assert(strings_view(slugs@) =~= before.push(s));
                assert(slugs_of(available@).take(i + 1) =~= slugs_of(available@).take(i as int).push(s));
                i += 1;
            }
            assert(slugs_of(available@).take(available@.len() as int) =~= slugs_of(available@));
            let mut refs: Vec<&str> = Vec::new();
            let mut k: usize = 0;
            while k < slugs.len()
                invariant
                    k <= slugs@.len(),
                    str_views(refs@) == strings_view(slugs@).take(k as int),
                decreases slugs.len() - k,
            {
                let ghost before = str_views(refs@);
                let t = slugs[k].as_str();
                assert(t@ == strings_view(slugs@)[k as int]);
                refs.push(t);
                assert(str_views(refs@) =~= before.push(t@));
                assert(strings_view(slugs@).take(k + 1) =~= strings_view(slugs@).take(k as int).push(t@));
                k += 1;
            }
            assert(strings_view(slugs@).take(slugs@.len() as int) =~= strings_view(slugs@));
            let help = if available.len() == 0 {
                concat3("no workflows found under ", WORKFLOW_DIR, " — run `gh ship init` to generate one")
            } else {
                match did_you_mean(name, refs.as_slice()) {
                    Some(h) => h,
                    None => {
                        let list = comma_joined(slugs.as_slice(), slugs.len());
                        assert(views(slugs@).take(slugs@.len() as int) =~= slugs_of(available@));
                        concat2("available workflows: ", list.as_str())
                    },
                }
            };
            let problem = concat3("(configured as `workflows.", key, "`) was not found");
            let issue = WorkflowIssue { workflow: owned(name), problem, help: Some(help) };
            let out = vec![issue];
            assert(issues_view(out@) =~= workflow_issues(available@, name@, key@));
            out
        },
        Some(found) => {
            let slug = found.to_ref().slug;
            let violations = found.contract_violations_as(role_for(key));
            let mut out: Vec<WorkflowIssue> = Vec::new();
            let mut i: usize = 0;
            let ghost expected = workflow_issues(available@, name@, key@);
            while i < violations.len()
                invariant
                    i <= violations@.len(),
                    issues_view(out@) == expected.take(i as int),
                    expected.len() == violations@.len(),
                    forall|k: int| 0 <= k < violations@.len() ==> #[trigger] expected[k] == (WorkflowIssueView {
                        workflow: slug@,
                        problem: violation_message(violations@[k]),
                        help: Some(violation_help(violations@[k])),
                    }),
                decreases violations.len() - i,
            {
                let v = violations[i];
                let issue = WorkflowIssue {
                    workflow: slug.clone(),
                    problem: owned(v.message()),
                    help: Some(owned(v.help())),
                };
                let ghost iv = issue@;
                assert(iv == expected[i as int]);
                let ghost before = issues_view(out@);
                out.push(issue);
                assert(issues_view(out@) =~= before.push(iv));
                assert(expected.take(i + 1) =~= expected.take(i as int).push(iv));
                i += 1;
            }
            assert(expected.take(violations@.len() as int) =~= expected);
            out
        },
    }
}

// --- Squash-merge settings --------------------------------------------------------------------

pub open spec fn title_problem() -> Seq<char> {
    "the squash commit subject can come from the bump commit instead of the PR title, bypassing `pull_request.title`"@
}

pub open spec fn body_problem() -> Seq<char> {
    "the squash commit body copies the release notes and the embedded artifact into git history"@
}

/// What is wrong with the squash settings. `None` is "no opinion": a
/// repository that does not squash composes no squash commit.
pub open spec fn squash_problems_of(s: MergeSettings) -> Option<Seq<Seq<char>>> {
    if !s.allow_squash_merge {
        None
    } else {
        Some(
            (if s.squash_merge_commit_title@ != SQUASH_TITLE_PR@ { seq![title_problem()] } else { Seq::empty() })
                + (if s.squash_merge_commit_message@ != SQUASH_MESSAGE_BLANK@ { seq![body_problem()] } else { Seq::empty() }),
        )
    }
}

pub fn squash_problems(settings: &MergeSettings) -> (r: Option<Vec<&'static str>>)
    ensures
        match squash_problems_of(*settings) {
            Some(p) => r matches Some(v) && str_views(v@) == p,
            None => r is None,
        },
{
    if !settings.allow_squash_merge {
        return None;
    }
    let mut problems: Vec<&'static str> = Vec::new();
    let title_bad = !crate::text::str_eq(settings.squash_merge_commit_title.as_str(), SQUASH_TITLE_PR);
    if title_bad {
        problems.push("the squash commit subject can come from the bump commit instead of the PR title, bypassing `pull_request.title`");
    }
    let ghost first = str_views(problems@);
    if !crate::text::str_eq(settings.squash_merge_commit_message.as_str(), SQUASH_MESSAGE_BLANK) {
        problems.push("the squash commit body copies the release notes and the embedded artifact into git history");
        assert(str_views(problems@) =~= first + seq![body_problem()]);
    } else {
        assert(str_views(problems@) =~= first + Seq::<Seq<char>>::empty());
    }
    assert(first =~= (if title_bad { seq![title_problem()] } else { Seq::<Seq<char>>::empty() }));
    Some(problems)
}

/// The line a configured workflow that satisfies the contract gets: its
/// role, and which workflow fills it. None for a workflow that is missing
/// or in violation, which raises issues instead.
pub fn workflow_line(available: &[Workflow], name: &str, key: &str, theme: &Theme) -> (r: Option<String>)
    ensures
        match find_index(workflow_views(available@), name@) {
            Some(i) => if role_violations(available@[i]@, role_of_key(key@)).len() == 0 {
                r matches Some(l) && l@ == detail_text(theme.colored_view(), key@, describe_of(available@[i]@))
            } else {
                r is None
            },
            None => r is None,
        },
{
    match find(available, name) {
        Some(found) => {
            if found.contract_violations_as(role_for(key)).len() == 0 {
                let d = found.describe();
                Some(logger::detail(theme, key, d.as_str()))
            } else {
                None
            }
        },
        None => None,
    }
}

/// What a configured workflow that still declares `ship_id` is told.
pub open spec fn legacy_note_text(slug: Seq<char>) -> Seq<char> {
    slug + " still declares a `ship_id` input — gh-ship no longer sends it. Remove it, along with the `ship:` marker in `run-name`; the compatibility shim that fills it in goes away next release."@
}

/// The note a configured workflow that still declares the retired
/// `ship_id` input gets, whether or not it is otherwise valid: dead
/// weight to delete, not a failure.
pub fn legacy_input_line(available: &[Workflow], name: &str, theme: &Theme) -> (r: Option<String>)
    ensures
        match find_index(workflow_views(available@), name@) {
            Some(i) => if declares_legacy(available@[i]@) {
                r matches Some(l) && l@ == skip_text(theme.colored_view(), legacy_note_text(slug_of(available@[i]@)))
            } else {
                r is None
            },
            None => r is None,
        },
{
    match find(available, name) {
        Some(found) => {
            if found.declares_legacy_ship_id() {
                let mut note = found.slug();
                push_str(
                    &mut note,
                    " still declares a `ship_id` input — gh-ship no longer sends it. Remove it, along with the `ship:` marker in `run-name`; the compatibility shim that fills it in goes away next release.",
                );
                Some(logger::skip(theme, note.as_str()))
            } else {
                None
            }
        },
        None => None,
    }
}

/// What the squash settings report says when they are right.
pub const SQUASH_CLEAN: &'static str = "squash merges produce a clean release commit";

/// Its headline when they are not.
pub const SQUASH_BAD: &'static str = "this repository squashes the Release PR badly";

/// The one-off fix, for the repository `slug`.
pub open spec fn fix_lines(slug: Seq<char>) -> Seq<Seq<char>> {
    seq![
        "Fix it once, with admin rights:"@,
        "  gh api -X PATCH repos/"@ + slug + " \\"@,
        "    -f squash_merge_commit_title=PR_TITLE \\"@,
        "    -f squash_merge_commit_message=BLANK"@,
    ]
}

/// The squash settings report: nothing without an opinion, a success
/// when there is nothing wrong, else each problem and the fix.
pub open spec fn squash_report(c: bool, problems: Option<Seq<Seq<char>>>, slug: Seq<char>) -> Seq<Seq<char>> {
    match problems {
        None => Seq::empty(),
        Some(ps) => if ps.len() == 0 {
            seq![ok_text(c, SQUASH_CLEAN@)]
        } else {
            seq![warn_text(c, SQUASH_BAD@)] + ps.map_values(|p: Seq<char>| note_text(c, seq![p])) + seq![
                note_text(c, fix_lines(slug)),
            ]
        },
    }
}

/// Report squash settings that would spoil the release commit of the
/// repository `slug`.
pub fn squash_lines(settings: &MergeSettings, slug: &str, theme: &Theme) -> (r: Vec<String>)
    ensures
        string_views(r@) == squash_report(theme.colored_view(), squash_problems_of(*settings), slug@),
{
    let ghost c = theme.colored_view();
    let mut out: Vec<String> = Vec::new();
    let problems = match squash_problems(settings) {
        None => {
            assert(string_views(out@) =~= squash_report(c, squash_problems_of(*settings), slug@));
            return out;
        },
        Some(p) => p,
    };
    let ghost ps = str_views(problems@);
    if problems.len() == 0 {
        out.push(logger::ok(theme, SQUASH_CLEAN));
        assert(string_views(out@) =~= squash_report(c, squash_problems_of(*settings), slug@));
        return out;
    }
    out.push(logger::warn(theme, SQUASH_BAD));
    let ghost head = string_views(out@);
    let mut i: usize = 0;
    while i < problems.len()
        invariant
            i <= problems@.len(),
            ps == str_views(problems@),
            string_views(out@) == head + ps.map_values(|p: Seq<char>| note_text(c, seq![p])).take(i as int),
            c == theme.colored_view(),
        decreases problems.len() - i,
    {
        let one = vec![problems[i]];
        assert(logger::str_views(one@) =~= seq![ps[i as int]]);
        let n = logger::note(theme, one.as_slice());
        let ghost before = string_views(out@);
        out.push(n);
        assert(string_views(out@) =~= before.push(n@));
        assert(ps.map_values(|p: Seq<char>| note_text(c, seq![p])).take(i + 1) =~= ps.map_values(
            |p: Seq<char>| note_text(c, seq![p]),
        ).take(i as int).push(n@));
        i += 1;
    }
    assert(ps.map_values(|p: Seq<char>| note_text(c, seq![p])).take(i as int) =~= ps.map_values(
        |p: Seq<char>| note_text(c, seq![p]),
    ));
    let fix_cmd = concat3("  gh api -X PATCH repos/", slug, " \\");
    let fix = vec![
        "Fix it once, with admin rights:",
        fix_cmd.as_str(),
        "    -f squash_merge_commit_title=PR_TITLE \\",
        "    -f squash_merge_commit_message=BLANK",
    ];
    assert(logger::str_views(fix@) =~= fix_lines(slug@));
    let f = logger::note(theme, fix.as_slice());
    let ghost before = string_views(out@);
    out.push(f);
    assert(string_views(out@) =~= before.push(f@));
    assert(string_views(out@) =~= squash_report(c, squash_problems_of(*settings), slug@));
    out
}

// --- Release lines ----------------------------------------------------------------------------

/// Where the entry `entry` at `i` stages its releases: a glob reports the
/// template in force for it per match, an exact entry the branch it
/// resolves to.
pub open spec fn line_target(cfg: Config, i: int, entry: Seq<char>) -> Result<Seq<char>, BranchErrorView> {
    if has_star(entry) {
        Ok(config::template_for(cfg, i) + " (per match)"@)
    } else {
        match resolved(cfg, entry) {
            Ok(l) => Ok(l.release),
            Err(x) => Err(x),
        }
    }
}

/// What marks a line whose entry has its own `release_branch`.
pub open spec fn override_mark(cfg: Config, i: int) -> Seq<char> {
    if config::overridden(cfg, i) {
        " (override)"@
    } else {
        Seq::empty()
    }
}

/// One line per entry, in order; the first entry that does not resolve
/// ends the report with its error.
pub open spec fn entry_lines(c: bool, cfg: Config, entries: Seq<Seq<char>>) -> Result<Seq<Seq<char>>, BranchErrorView>
    decreases entries.len(),
{
    if entries.len() == 0 {
        Ok(Seq::empty())
    } else {
        match entry_lines(c, cfg, entries.drop_last()) {
            Err(x) => Err(x),
            Ok(ls) => match line_target(cfg, entries.len() - 1, entries.last()) {
                Ok(t) => Ok(ls.push(detail_text(c, "release line"@, entries.last() + " -> "@ + t + override_mark(cfg, entries.len() - 1)))),
                Err(x) => Err(x),
            },
        }
    }
}

/// What each release line resolves to; without `branches`, the one
/// template in force.
pub open spec fn release_lines_report(c: bool, cfg: Config) -> Result<Seq<Seq<char>>, BranchErrorView> {
    if cfg.settings.branches@.len() == 0 {
        Ok(seq![detail_text(c, "release branch"@, cfg.settings.release_branch@)])
    } else {
        entry_lines(c, cfg, entries_of(cfg))
    }
}

proof fn lemma_error_persists(c: bool, cfg: Config, es: Seq<Seq<char>>, i: int)
    requires
        0 <= i <= es.len(),
        entry_lines(c, cfg, es.take(i)) is Err,
    ensures
        entry_lines(c, cfg, es) == entry_lines(c, cfg, es.take(i)),
    decreases es.len(),
{
    if es.len() == i {
        assert(es.take(i) =~= es);
    } else {
        assert(es.drop_last().take(i) =~= es.take(i));
        lemma_error_persists(c, cfg, es.drop_last(), i);
    }
}

/// Show what each release line resolves to, so that a release landing
/// on an unexpected branch can be explained before it happens.
pub fn release_lines(config: &Config, theme: &Theme) -> (r: Result<Vec<String>, BranchError>)
    ensures
        match release_lines_report(theme.colored_view(), *config) {
            Ok(ls) => r matches Ok(v) && string_views(v@) == ls,
            Err(e) => r matches Err(x) && x@ == e,
        },
{
    let ghost c = theme.colored_view();
    let mut out: Vec<String> = Vec::new();
    if !config.has_branches() {
        out.push(logger::detail(theme, "release branch", config.release_branch_template()));
        assert(string_views(out@) =~= seq![detail_text(c, "release branch"@, config.settings.release_branch@)]);
        return Ok(out);
    }
    let entries = config.branches();
    let ghost es = entries_of(*config);
    assert(es == crate::artifact::model::strings_view(entries@));
    let mut i: usize = 0;
    assert(es.take(0) =~= Seq::<Seq<char>>::empty());
    assert(string_views(out@) =~= Seq::<Seq<char>>::empty());
    while i < entries.len()
        invariant
            i <= entries@.len(),
            es == crate::artifact::model::strings_view(entries@),
            es == entries_of(*config),
            c == theme.colored_view(),
            entry_lines(c, *config, es.take(i as int)) == Ok::<Seq<Seq<char>>, BranchErrorView>(string_views(out@)),
        decreases entries.len() - i,
    {
        let e = entries[i].as_str();
        assert(es.take(i + 1).drop_last() =~= es.take(i as int));
        assert(es.take(i + 1).last() == e@);
        let target = if is_pattern(e) {
            concat2(config.release_branch_template_for(Some(i)), " (per match)")
        } else {
            match branches::resolve(config, e) {
                Ok(l) => l.release,
                Err(x) => {
                    proof {
                        lemma_error_persists(c, *config, es, i + 1);
                    }
                    return Err(x);
                },
            }
        };
        let mut text = concat3(e, " -> ", target.as_str());
        if config.overrides_template(i) {
            push_str(&mut text, " (override)");
        }
        proof {
            reveal_strlit(" (override)");
        }
        assert(text@ =~= e@ + " -> "@ + target@ + override_mark(*config, i as int));
        let line = logger::detail(theme, "release line", text.as_str());
        let ghost before = string_views(out@);
        out.push(line);
        assert(string_views(out@) =~= before.push(line@));
        i += 1;
    }
    assert(es.take(i as int) =~= es);
    Ok(out)
}

} // verus!
