//! `gh ship init`: what it writes, and what can stop it.
//!
//! The prompting and the file writes are the binary's; the generated
//! configuration and the errors are here.

use vstd::prelude::*;

use crate::artifact::codec;
use crate::artifact::validate::{plural, plural_of};
use crate::config::{CONFIG_VERSION, DEFAULT_PR_TITLE, DEFAULT_RELEASE_BRANCH};
use crate::gh::workflow::{describe_of, slug_of, violation_message, violations_of, views, Workflow, WorkflowView};
use crate::logger::{
    self, detail_text, note_text, note_url_text, rule_text, skip_text, step_text, str_views, warn_text,
};
use crate::style::Theme;
use crate::templates::TokenStrategy;
use crate::text::{self, concat2, concat3, joined_by, owned, push_str, str_eq, string_views};

verus! {

// The generated file, in the pieces around the values it interpolates.
pub const CONFIG_MODELINE: &'static str = "# $schema: https://noirbizarre.github.io/gh-ship/schema/config/v1.json\n";

pub const CONFIG_INTRO: &'static str = "# gh-ship configuration\n# Docs: https://noirbizarre.github.io/gh-ship/configuration/\n#\n# gh-ship orchestrates your release. It never bumps versions,\n# writes changelogs, or runs your release logic — your workflows do.\n\nversion: ";

pub const CONFIG_BRANCH: &'static str = "\n\n# Branch on which the release is staged. gh-ship stages each release\n# on a throwaway branch and moves this one onto the result, so do not\n# push to it yourself.\nrelease_branch: ";

pub const CONFIG_LINES: &'static str = "\n\n# Base branches gh-ship releases from — one release line each.\n# When omitted, the repository's default branch is the only line.\n# branches: [main]\n\n# Workflows gh-ship dispatches.\n#\n# These must declare `on: workflow_dispatch` — a `workflow_call`-only\n# workflow cannot be started through the API. The prepare workflow must\n# also accept a `dry_run` input, which `gh ship preview` dispatches with.\n# `gh ship validate` checks both.\nworkflows:\n  prepare: ";

pub const CONFIG_PR: &'static str = "\n# Release PR rendering. Templates are MiniJinja, and the release\n# artifact is the root context: {{ version }}, {{ tag }},\n# {{ release.notes }}.\n#\n# The PR body is: header + the notes your workflow produced + footer.\n#\n# The title is also the commit message: GitHub pre-fills the\n# \"Squash and merge\" dialog from it and appends `(#42)`, so keep it a\n# Conventional Commit.\n#\n# Because it is Conventional, your changelog tool will parse it — make\n# sure it also skips it, or every release will look like an unreleased\n# change and propose the next one out of nothing.\npull_request:\n  title: \"";

pub const CONFIG_TAIL: &'static str = "\"\n  # header: |\n  #   This PR prepares the next release.\n  # footer: |\n  #   Generated automatically by gh-ship.\n  # labels: [release]\n\n# GitHub Release behaviour.\n# release:\n  # Create the release as a draft, then undraft it once the publish\n  # workflow succeeds. This is the only ordering that lets the publish\n  # workflow attach assets before watchers are notified.\n  # draft: true\n";

pub const CONFIG_NO_PUBLISH: &'static str = "  # publish: publish-release\n";

/// `.github/ship.yml` as `init` writes it, documented inline: the
/// comments are the point, since a config a newcomer can read and modify
/// without opening the docs is worth more than a terse one.
pub open spec fn config_text(prepare: Seq<char>, publish: Option<Seq<char>>) -> Seq<char> {
    CONFIG_MODELINE@ + CONFIG_INTRO@ + codec::dec_text(CONFIG_VERSION as nat) + CONFIG_BRANCH@ + DEFAULT_RELEASE_BRANCH@
        + CONFIG_LINES@ + prepare + "\n"@ + match publish {
        Some(p) => "  publish: "@ + p + "\n"@,
        None => CONFIG_NO_PUBLISH@,
    } + CONFIG_PR@ + DEFAULT_PR_TITLE@ + CONFIG_TAIL@
}

/// Render `.github/ship.yml`.
pub fn render_config(prepare: &str, publish: Option<&str>) -> (r: String)
    ensures
        r@ == config_text(prepare@, match publish {
            Some(p) => Some(p@),
            None => None,
        }),
{
    let mut out = owned(CONFIG_MODELINE);
    push_str(&mut out, CONFIG_INTRO);
    let v = codec::dec_string(CONFIG_VERSION as u64);
    push_str(&mut out, v.as_str());
    push_str(&mut out, CONFIG_BRANCH);
    push_str(&mut out, DEFAULT_RELEASE_BRANCH);
    push_str(&mut out, CONFIG_LINES);
    push_str(&mut out, prepare);
    push_str(&mut out, "\n");
    match publish {
        Some(p) => {
            push_str(&mut out, "  publish: ");
            push_str(&mut out, p);
            push_str(&mut out, "\n");
        },
        None => {
            push_str(&mut out, CONFIG_NO_PUBLISH);
        },
    }
    push_str(&mut out, CONFIG_PR);
    push_str(&mut out, DEFAULT_PR_TITLE);
    push_str(&mut out, CONFIG_TAIL);
    out
}

// --- Choosing the workflows ------------------------------------------------------------------

/// The prompt value that asks for a template to be generated.
pub const GENERATE: &'static str = "__generate__";

/// The prompt value that declines an optional role.
pub const SKIP: &'static str = "__skip__";

/// The label of the option that declines the publish role.
pub const SKIP_LABEL: &'static str = "Skip — I don't publish assets";

/// What the user picked for a role.
#[derive(Debug)]
pub enum Choice<'a> {
    Existing(&'a Workflow),
    Generate,
    Skip,
}

/// Turn the value a prompt returned into a choice. The prompts offer
/// workflows by slug, so a workflow is found by its slug; a value that
/// names none of them is a skip.
pub fn resolve<'a>(picked: &str, conforming: &'a [Workflow]) -> (r: Choice<'a>)
    ensures
        picked@ == GENERATE@ ==> r is Generate,
        picked@ != GENERATE@ && picked@ == SKIP@ ==> r is Skip,
        picked@ != GENERATE@ && picked@ != SKIP@ ==> match r {
            Choice::Existing(w) => exists|i: int|
                0 <= i < conforming@.len() && *w == conforming@[i] && slug_of(conforming@[i]@) == picked@
                    && forall|j: int| 0 <= j < i ==> slug_of(#[trigger] conforming@[j]@) != picked@,
            Choice::Generate => false,
            Choice::Skip => forall|j: int| 0 <= j < conforming@.len() ==> slug_of(#[trigger] conforming@[j]@) != picked@,
        },
{
    if str_eq(picked, GENERATE) {
        return Choice::Generate;
    }
    if str_eq(picked, SKIP) {
        return Choice::Skip;
    }
    let mut i: usize = 0;
    while i < conforming.len()
        invariant
            i <= conforming@.len(),
            picked@ != GENERATE@,
            picked@ != SKIP@,
            forall|j: int| 0 <= j < i ==> slug_of(#[trigger] conforming@[j]@) != picked@,
        decreases conforming.len() - i,
    {
        let slug = conforming[i].slug();
        if str_eq(slug.as_str(), picked) {
            return Choice::Existing(&conforming[i]);
        }
        i += 1;
    }
    Choice::Skip
}

/// The workflows of `ws` that `keep` holds of, in order.
pub open spec fn kept(ws: Seq<WorkflowView>, keep: spec_fn(WorkflowView) -> bool) -> Seq<WorkflowView>
    decreases ws.len(),
{
    if ws.len() == 0 {
        Seq::empty()
    } else if keep(ws.last()) {
        kept(ws.drop_last(), keep).push(ws.last())
    } else {
        kept(ws.drop_last(), keep)
    }
}

/// Whether a workflow satisfies the contract.
pub open spec fn usable(w: WorkflowView) -> bool {
    violations_of(w).len() == 0
}

/// The workflows that satisfy the contract, and those that do not, each
/// in the order found: only the first are offered, the second explained.
pub fn partition_conforming(ws: &[Workflow]) -> (r: (Vec<Workflow>, Vec<Workflow>))
    ensures
        views(r.0@) == kept(views(ws@), |w: WorkflowView| usable(w)),
        views(r.1@) == kept(views(ws@), |w: WorkflowView| !usable(w)),
{
    let ghost v = views(ws@);
    let mut yes: Vec<Workflow> = Vec::new();
    let mut no: Vec<Workflow> = Vec::new();
    let mut i: usize = 0;
    assert(v.take(0) =~= Seq::<WorkflowView>::empty());
    assert(views(yes@) =~= Seq::<WorkflowView>::empty());
    assert(views(no@) =~= Seq::<WorkflowView>::empty());
    while i < ws.len()
        invariant
            i <= ws@.len(),
            v == views(ws@),
            views(yes@) == kept(v.take(i as int), |w: WorkflowView| usable(w)),
            views(no@) == kept(v.take(i as int), |w: WorkflowView| !usable(w)),
        decreases ws.len() - i,
    {
        assert(v.take(i + 1).drop_last() =~= v.take(i as int));
        assert(v.take(i + 1).last() == ws@[i as int]@);
        let w = ws[i].duplicate();
        if ws[i].contract_violations().len() == 0 {
            let ghost before = views(yes@);
            yes.push(w);
            assert(views(yes@) =~= before.push(ws@[i as int]@));
        } else {
            let ghost before = views(no@);
            no.push(w);
            assert(views(no@) =~= before.push(ws@[i as int]@));
        }
        i += 1;
    }
    assert(v.take(i as int) =~= v);
    (yes, no)
}

/// What the publish prompt offers: every conforming workflow but the one
/// chosen to prepare, since one workflow in both roles is never what
/// someone means.
pub fn publish_candidates(conforming: &[Workflow], prepare: &str) -> (r: Vec<Workflow>)
    ensures
        views(r@) == kept(views(conforming@), |w: WorkflowView| slug_of(w) != prepare@),
{
    let ghost v = views(conforming@);
    let mut out: Vec<Workflow> = Vec::new();
    let mut i: usize = 0;
    assert(v.take(0) =~= Seq::<WorkflowView>::empty());
    assert(views(out@) =~= Seq::<WorkflowView>::empty());
    while i < conforming.len()
        invariant
            i <= conforming@.len(),
            v == views(conforming@),
            views(out@) == kept(v.take(i as int), |w: WorkflowView| slug_of(w) != prepare@),
        decreases conforming.len() - i,
    {
        assert(v.take(i + 1).drop_last() =~= v.take(i as int));
        assert(v.take(i + 1).last() == conforming@[i as int]@);
        let slug = conforming[i].slug();
        if !str_eq(slug.as_str(), prepare) {
            let ghost before = views(out@);
            out.push(conforming[i].duplicate());
            assert(views(out@) =~= before.push(conforming@[i as int]@));
        }
        i += 1;
    }
    assert(v.take(i as int) =~= v);
    out
}

/// What is asked for a required role.
#[derive(Debug)]
pub enum Ask {
    /// Nothing conforms: generate from a template without asking.
    Generate,
    /// Ask, offering these.
    Choose(Vec<PromptOption>),
}

/// What is asked for a required role: with no conforming workflow there is
/// nothing to choose, so a template is generated; otherwise the workflows
/// and a template are offered.
pub fn ask_required(template_name: &str, conforming: &[Workflow]) -> (r: Ask)
    ensures
        conforming@.len() == 0 ==> r is Generate,
        conforming@.len() > 0 ==> (r matches Ask::Choose(o) && options_view(o@) == required_options_of(
            template_name@,
            views(conforming@),
        )),
{
    if conforming.len() == 0 {
        Ask::Generate
    } else {
        Ask::Choose(required_options(template_name, conforming))
    }
}

/// One entry of a prompt: the value it returns, and what it shows.
#[derive(Debug, Clone)]
pub struct PromptOption {
    pub value: String,
    pub label: String,
}

pub open spec fn options_view(v: Seq<PromptOption>) -> Seq<(Seq<char>, Seq<char>)> {
    v.map_values(|o: PromptOption| (o.value@, o.label@))
}

/// The label of the option that generates `template_name`.yml.
pub open spec fn generate_label(template_name: Seq<char>) -> Seq<char> {
    "Generate a new "@ + template_name + ".yml from a template"@
}

/// Each workflow, offered by slug and described.
pub open spec fn workflow_entries(ws: Seq<WorkflowView>) -> Seq<(Seq<char>, Seq<char>)> {
    ws.map_values(|w: WorkflowView| (slug_of(w), describe_of(w)))
}

/// A required role: the workflows, then generating one.
pub open spec fn required_options_of(template_name: Seq<char>, ws: Seq<WorkflowView>) -> Seq<(Seq<char>, Seq<char>)> {
    workflow_entries(ws).push((GENERATE@, generate_label(template_name)))
}

/// An optional role: with nothing to pick, skipping leads so that the
/// safe choice is the default one; otherwise the workflows, generating
/// one, then skipping.
pub open spec fn optional_options_of(template_name: Seq<char>, ws: Seq<WorkflowView>) -> Seq<(Seq<char>, Seq<char>)> {
    if ws.len() == 0 {
        seq![(SKIP@, SKIP_LABEL@), (GENERATE@, generate_label(template_name))]
    } else {
        workflow_entries(ws).push((GENERATE@, generate_label(template_name))).push((SKIP@, SKIP_LABEL@))
    }
}

fn option(value: &str, label: &str) -> (r: PromptOption)
    ensures
        r.value@ == value@,
        r.label@ == label@,
{
    PromptOption { value: owned(value), label: owned(label) }
}

fn workflow_options(conforming: &[Workflow]) -> (r: Vec<PromptOption>)
    ensures
        options_view(r@) == workflow_entries(views(conforming@)),
{
    let mut out: Vec<PromptOption> = Vec::new();
    let mut i: usize = 0;
    while i < conforming.len()
        invariant
            i <= conforming@.len(),
            options_view(out@) == workflow_entries(views(conforming@).take(i as int)),
        decreases conforming.len() - i,
    {
        let slug = conforming[i].slug();
        let label = conforming[i].describe();
        let ghost before = out@;
        let o = PromptOption { value: slug, label };
        assert((o.value@, o.label@) == (slug_of(conforming@[i as int]@), describe_of(conforming@[i as int]@)));
        out.push(o);
        assert(options_view(out@) =~= options_view(before).push((o.value@, o.label@)));
        assert(views(conforming@).take(i + 1) =~= views(conforming@).take(i as int).push(conforming@[i as int]@));
        assert(workflow_entries(views(conforming@).take(i + 1)) =~= workflow_entries(views(conforming@).take(i as int)).push(
            (slug_of(conforming@[i as int]@), describe_of(conforming@[i as int]@)),
        ));
        i += 1;
    }
    assert(views(conforming@).take(i as int) =~= views(conforming@));
    out
}

fn generate_option(template_name: &str) -> (r: PromptOption)
    ensures
        r.value@ == GENERATE@,
        r.label@ == generate_label(template_name@),
{
    let mut label = concat2("Generate a new ", template_name);
    push_str(&mut label, ".yml from a template");
    PromptOption { value: owned(GENERATE), label }
}

/// What the prompt for a required role offers.
pub fn required_options(template_name: &str, conforming: &[Workflow]) -> (r: Vec<PromptOption>)
    ensures
        options_view(r@) == required_options_of(template_name@, views(conforming@)),
{
    let mut out = workflow_options(conforming);
    out.push(generate_option(template_name));
    assert(options_view(out@) =~= required_options_of(template_name@, views(conforming@)));
    out
}

/// What the prompt for an optional role offers.
pub fn optional_options(template_name: &str, conforming: &[Workflow]) -> (r: Vec<PromptOption>)
    ensures
        options_view(r@) == optional_options_of(template_name@, views(conforming@)),
{
    if conforming.len() == 0 {
        let mut out: Vec<PromptOption> = Vec::new();
        out.push(option(SKIP, SKIP_LABEL));
        out.push(generate_option(template_name));
        assert(options_view(out@) =~= optional_options_of(template_name@, views(conforming@)));
        out
    } else {
        let mut out = workflow_options(conforming);
        out.push(generate_option(template_name));
        out.push(option(SKIP, SKIP_LABEL));
        assert(options_view(out@) =~= optional_options_of(template_name@, views(conforming@)));
        out
    }
}

/// The strategy a token prompt's value stands for: `app`, `default`, and
/// anything else is a personal access token.
pub fn strategy_of(picked: &str) -> (r: TokenStrategy)
    ensures
        r == (if picked@ == "app"@ {
            TokenStrategy::App
        } else if picked@ == "default"@ {
            TokenStrategy::Default
        } else {
            TokenStrategy::Pat
        }),
{
    if str_eq(picked, "app") {
        TokenStrategy::App
    } else if str_eq(picked, "default") {
        TokenStrategy::Default
    } else {
        TokenStrategy::Pat
    }
}

// --- Explaining what cannot be used ---------------------------------------------------------

/// Where the full explanation of an unusable workflow is.
pub const VALIDATE_AFTER: &'static str = "run `gh ship validate` after setup for the full explanation";

/// The workflows worth explaining: those something could start at all.
pub open spec fn relevant(ws: Seq<WorkflowView>) -> Seq<WorkflowView>
    decreases ws.len(),
{
    if ws.len() == 0 {
        Seq::empty()
    } else if ws.last().dispatchable || ws.last().callable {
        relevant(ws.drop_last()).push(ws.last())
    } else {
        relevant(ws.drop_last())
    }
}

/// One detail line per violation of a workflow.
pub open spec fn violation_lines(colored: bool, w: WorkflowView) -> Seq<Seq<char>> {
    violations_of(w).map_values(|v| detail_text(colored, slug_of(w), violation_message(v)))
}

/// The violation lines of each workflow in turn.
pub open spec fn violation_details(colored: bool, ws: Seq<WorkflowView>) -> Seq<Seq<char>>
    decreases ws.len(),
{
    if ws.len() == 0 {
        Seq::empty()
    } else {
        violation_details(colored, ws.drop_last()) + violation_lines(colored, ws.last())
    }
}

/// The headline over the unusable workflows.
pub open spec fn nonconforming_headline(n: nat) -> Seq<char> {
    codec::dec_text(n) + " workflow"@ + plural_of(n) + " cannot be used by gh-ship yet:"@
}

/// The lines explaining found workflows that cannot be used, framed by
/// blank lines; none when there is nothing to explain.
pub open spec fn nonconforming_report(colored: bool, ws: Seq<WorkflowView>) -> Seq<Seq<char>> {
    let rel = relevant(ws);
    if rel.len() == 0 {
        Seq::empty()
    } else {
        seq![""@, warn_text(colored, nonconforming_headline(rel.len()))] + violation_details(colored, rel)
            + seq![skip_text(colored, VALIDATE_AFTER@), ""@]
    }
}

fn push_violation_lines(out: &mut Vec<String>, theme: &Theme, w: &Workflow)
    ensures
        string_views(final(out)@) == string_views(old(out)@) + violation_lines(theme.colored_view(), w@),
{
    let slug = w.slug();
    let vs = w.contract_violations();
    let ghost start = string_views(out@);
    let mut j: usize = 0;
    while j < vs.len()
        invariant
            j <= vs@.len(),
            vs@ == violations_of(w@),
            slug@ == slug_of(w@),
            string_views(out@) == start + violation_lines(theme.colored_view(), w@).take(j as int),
        decreases vs.len() - j,
    {
        let line = logger::detail(theme, slug.as_str(), vs[j].message());
        let ghost before = out@;
        out.push(line);
        assert(string_views(out@) =~= string_views(before).push(line@));
        assert(violation_lines(theme.colored_view(), w@).take(j + 1) =~= violation_lines(theme.colored_view(), w@).take(
            j as int,
        ).push(line@));
        j += 1;
    }
    assert(violation_lines(theme.colored_view(), w@).take(j as int) =~= violation_lines(theme.colored_view(), w@));
}

/// Explain the workflows that were found but cannot be used: hiding
/// them would leave the user, who knows they exist, concluding that
/// gh-ship is broken.
pub fn nonconforming_lines(workflows: &[Workflow], theme: &Theme) -> (r: Vec<String>)
    ensures
        string_views(r@) == nonconforming_report(theme.colored_view(), views(workflows@)),
{
    let ghost ws = views(workflows@);
    let mut details: Vec<String> = Vec::new();
    let mut count: usize = 0;
    let mut i: usize = 0;
    while i < workflows.len()
        invariant
            i <= workflows@.len(),
            ws == views(workflows@),
            count == relevant(ws.take(i as int)).len(),
            count <= i,
            string_views(details@) == violation_details(theme.colored_view(), relevant(ws.take(i as int))),
        decreases workflows.len() - i,
    {
        let w = &workflows[i];
        let ghost prev = relevant(ws.take(i as int));
        assert(ws.take(i + 1).drop_last() =~= ws.take(i as int));
        assert(ws.take(i + 1).last() == w@);
        if w.dispatchable || w.callable {
            push_violation_lines(&mut details, theme, w);
            count += 1;
            assert(relevant(ws.take(i + 1)) == prev.push(w@));
            assert(prev.push(w@).drop_last() =~= prev);
            assert(violation_details(theme.colored_view(), prev.push(w@)) == violation_details(theme.colored_view(), prev)
                + violation_lines(theme.colored_view(), w@));
        } else {
            assert(relevant(ws.take(i + 1)) == prev);
        }
        i += 1;
    }
    assert(ws.take(i as int) =~= ws);
    let mut out: Vec<String> = Vec::new();
    if count == 0 {
        assert(string_views(out@) =~= nonconforming_report(theme.colored_view(), ws));
        return out;
    }
    let n = codec::dec_string(count as u64);
    let mut headline = concat2(n.as_str(), " workflow");
    push_str(&mut headline, plural(count));
    push_str(&mut headline, " cannot be used by gh-ship yet:");
    proof {
        reveal_strlit("");
        assert(""@ =~= Seq::<char>::empty());
    }
    assert(headline@ == nonconforming_headline(count as nat));
    push_line(&mut out, String::new());
    push_line(&mut out, logger::warn(theme, headline.as_str()));
    assert(string_views(out@) =~= seq![""@, warn_text(theme.colored_view(), nonconforming_headline(count as nat))]);
    let mut k: usize = 0;
    let ghost head = string_views(out@);
    while k < details.len()
        invariant
            k <= details@.len(),
            string_views(out@) == head + string_views(details@).take(k as int),
        decreases details.len() - k,
    {
        let ghost before = out@;
        let d = owned(details[k].as_str());
        out.push(d);
        assert(string_views(out@) =~= string_views(before).push(d@));
        assert(string_views(details@).take(k + 1) =~= string_views(details@).take(k as int).push(d@));
        k += 1;
    }
    assert(string_views(details@).take(k as int) =~= string_views(details@));
    push_line(&mut out, logger::skip(theme, VALIDATE_AFTER));
    push_line(&mut out, String::new());
    assert(string_views(out@) =~= nonconforming_report(theme.colored_view(), ws));
    out
}

// --- The closing guidance -------------------------------------------------------------------

pub const STEP_EDIT_1: &'static str = "Edit the generated workflow: replace the placeholder steps";
pub const STEP_EDIT_2: &'static str = "with your own versioning and changelog tooling.";
pub const STEP_VALIDATE: &'static str = "Run `gh ship validate` to check the setup.";
pub const STEP_PREVIEW_1: &'static str = "Run `gh ship preview` to see the Release PR without";
pub const STEP_PREVIEW_2: &'static str = "changing anything.";

pub const APP_WARNING: &'static str = "one thing left: the GitHub App";
pub const APP_NOTE_1: &'static str = "The generated workflows mint their token with";
pub const APP_NOTE_2: &'static str = "actions/create-github-app-token, so they need an App to mint";
pub const APP_NOTE_3: &'static str = "it from. Register one, grant it contents, actions,";
pub const APP_NOTE_4: &'static str = "pull_requests and issues write, install it on this";
pub const APP_NOTE_5: &'static str = "repository, then set APP_CLIENT_ID as a variable and";
pub const APP_NOTE_6: &'static str = "APP_PRIVATE_KEY as a secret, both in the `release`";
pub const APP_NOTE_7: &'static str = "environment — an environment variable resolves only in a";
pub const APP_NOTE_8: &'static str = "job that declares that environment.";
pub const APP_URL: &'static str = "https://noirbizarre.github.io/gh-ship/workflows/#using-a-github-app";

pub const PAT_WARNING: &'static str = "one thing left: the token";
pub const PAT_NOTE_1: &'static str = "The generated workflows prefer the `SHIP_TOKEN` secret and";
pub const PAT_NOTE_2: &'static str = "fall back to GITHUB_TOKEN, which cannot trigger other";
pub const PAT_NOTE_3: &'static str = "workflows — so until you add SHIP_TOKEN, the Release PR";
pub const PAT_NOTE_4: &'static str = "will NOT run your CI.";
pub const TOKENS_URL: &'static str = "https://noirbizarre.github.io/gh-ship/workflows/#tokens";

pub const DEFAULT_WARNING: &'static str = "the Release PR will not run your CI";
pub const DEFAULT_NOTE_1: &'static str = "You chose the default GITHUB_TOKEN, which GitHub deliberately";
pub const DEFAULT_NOTE_2: &'static str = "prevents from triggering other workflow runs. Nothing else is";
pub const DEFAULT_NOTE_3: &'static str = "affected. Re-run `gh ship init --force` and pick a GitHub App";
pub const DEFAULT_NOTE_4: &'static str = "or a PAT to change it.";

pub const PUBLISH_NOTE_1: &'static str = "Your publish workflow uploads assets to the DRAFT release;";
pub const PUBLISH_NOTE_2: &'static str = "gh-ship undrafts it only after that workflow succeeds.";

/// The three steps every new setup goes through.
pub open spec fn steps_part(c: bool) -> Seq<Seq<char>> {
    seq![
        ""@,
        rule_text(c, "Next steps"@),
        ""@,
        step_text(c, 1, seq![STEP_EDIT_1@, STEP_EDIT_2@]),
        ""@,
        step_text(c, 2, seq![STEP_VALIDATE@]),
        ""@,
        step_text(c, 3, seq![STEP_PREVIEW_1@, STEP_PREVIEW_2@]),
        ""@,
    ]
}

/// What is left to do for the token: the one part `init` cannot finish,
/// since the workflows authenticate with something that does not exist
/// yet.
pub open spec fn token_part(c: bool, strategy: TokenStrategy) -> Seq<Seq<char>> {
    match strategy {
        TokenStrategy::App => seq![
            warn_text(c, APP_WARNING@),
            note_text(
                c,
                seq![APP_NOTE_1@, APP_NOTE_2@, APP_NOTE_3@, APP_NOTE_4@, APP_NOTE_5@, APP_NOTE_6@, APP_NOTE_7@, APP_NOTE_8@],
            ),
            note_url_text(c, APP_URL@),
        ],
        TokenStrategy::Pat => seq![
            warn_text(c, PAT_WARNING@),
            note_text(c, seq![PAT_NOTE_1@, PAT_NOTE_2@, PAT_NOTE_3@, PAT_NOTE_4@]),
            note_url_text(c, TOKENS_URL@),
        ],
        TokenStrategy::Default => seq![
            warn_text(c, DEFAULT_WARNING@),
            note_text(c, seq![DEFAULT_NOTE_1@, DEFAULT_NOTE_2@, DEFAULT_NOTE_3@, DEFAULT_NOTE_4@]),
            note_url_text(c, TOKENS_URL@),
        ],
    }
}

/// The note on the draft release, for a setup with a publish workflow.
pub open spec fn publish_part(c: bool, has_publish: bool) -> Seq<Seq<char>> {
    if has_publish {
        seq![""@, note_text(c, seq![PUBLISH_NOTE_1@, PUBLISH_NOTE_2@])]
    } else {
        Seq::empty()
    }
}

/// The closing guidance, line by line.
pub open spec fn next_steps_lines(c: bool, has_publish: bool, strategy: TokenStrategy) -> Seq<Seq<char>> {
    steps_part(c) + token_part(c, strategy) + publish_part(c, has_publish) + seq![""@]
}

fn push_note(out: &mut Vec<String>, theme: &Theme, lines: &[&str])
    ensures
        string_views(final(out)@) == string_views(old(out)@).push(note_text(theme.colored_view(), str_views(lines@))),
{
    let n = logger::note(theme, lines);
    out.push(n);
    assert(string_views(out@) =~= string_views(old(out)@).push(n@));
}

fn push_step(out: &mut Vec<String>, theme: &Theme, n: u64, lines: &[&str])
    ensures
        string_views(final(out)@) == string_views(old(out)@).push(step_text(theme.colored_view(), n as nat, str_views(lines@))),
{
    let s = logger::step(theme, n, lines);
    out.push(s);
    assert(string_views(out@) =~= string_views(old(out)@).push(s@));
}

fn push_line(out: &mut Vec<String>, line: String)
    ensures
        string_views(final(out)@) == string_views(old(out)@).push(line@),
{
    out.push(line);
    assert(string_views(out@) =~= string_views(old(out)@).push(line@));
}

/// The guidance `init` closes with: what to run next, what is left to do
/// for the chosen token, and, with a publish workflow, how the draft
/// release is used.
pub fn next_steps(theme: Theme, has_publish: bool, strategy: TokenStrategy) -> (r: String)
    ensures
        r@ == joined_by(next_steps_lines(theme.colored_view(), has_publish, strategy), "\n"@),
{
    let t = &theme;
    let ghost c = theme.colored_view();
    proof {
        reveal_strlit("");
        assert(""@ =~= Seq::<char>::empty());
    }
    let mut out: Vec<String> = Vec::new();
    push_line(&mut out, String::new());
    push_line(&mut out, logger::rule(t, "Next steps"));
    push_line(&mut out, String::new());
    let edit = vec![STEP_EDIT_1, STEP_EDIT_2];
    assert(str_views(edit@) =~= seq![STEP_EDIT_1@, STEP_EDIT_2@]);
    push_step(&mut out, t, 1, edit.as_slice());
    push_line(&mut out, String::new());
    let validate = vec![STEP_VALIDATE];
    assert(str_views(validate@) =~= seq![STEP_VALIDATE@]);
    push_step(&mut out, t, 2, validate.as_slice());
    push_line(&mut out, String::new());
    let preview = vec![STEP_PREVIEW_1, STEP_PREVIEW_2];
    assert(str_views(preview@) =~= seq![STEP_PREVIEW_1@, STEP_PREVIEW_2@]);
    push_step(&mut out, t, 3, preview.as_slice());
    push_line(&mut out, String::new());
    assert(string_views(out@) =~= steps_part(c));
    let ghost before_token = string_views(out@);
    match strategy {
        TokenStrategy::App => {
            push_line(&mut out, logger::warn(t, APP_WARNING));
            let note = vec![APP_NOTE_1, APP_NOTE_2, APP_NOTE_3, APP_NOTE_4, APP_NOTE_5, APP_NOTE_6, APP_NOTE_7, APP_NOTE_8];
            assert(str_views(note@) =~= seq![
                APP_NOTE_1@,
                APP_NOTE_2@,
                APP_NOTE_3@,
                APP_NOTE_4@,
                APP_NOTE_5@,
                APP_NOTE_6@,
                APP_NOTE_7@,
                APP_NOTE_8@,
            ]);
            push_note(&mut out, t, note.as_slice());
            push_line(&mut out, logger::note_url(t, APP_URL));
        },
        TokenStrategy::Pat => {
            push_line(&mut out, logger::warn(t, PAT_WARNING));
            let note = vec![PAT_NOTE_1, PAT_NOTE_2, PAT_NOTE_3, PAT_NOTE_4];
            assert(str_views(note@) =~= seq![PAT_NOTE_1@, PAT_NOTE_2@, PAT_NOTE_3@, PAT_NOTE_4@]);
            push_note(&mut out, t, note.as_slice());
            push_line(&mut out, logger::note_url(t, TOKENS_URL));
        },
        TokenStrategy::Default => {
            push_line(&mut out, logger::warn(t, DEFAULT_WARNING));
            let note = vec![DEFAULT_NOTE_1, DEFAULT_NOTE_2, DEFAULT_NOTE_3, DEFAULT_NOTE_4];
            assert(str_views(note@) =~= seq![DEFAULT_NOTE_1@, DEFAULT_NOTE_2@, DEFAULT_NOTE_3@, DEFAULT_NOTE_4@]);
            push_note(&mut out, t, note.as_slice());
            push_line(&mut out, logger::note_url(t, TOKENS_URL));
        },
    }
    assert(string_views(out@) =~= before_token + token_part(c, strategy));
    if has_publish {
        push_line(&mut out, String::new());
        let note = vec![PUBLISH_NOTE_1, PUBLISH_NOTE_2];
        assert(str_views(note@) =~= seq![PUBLISH_NOTE_1@, PUBLISH_NOTE_2@]);
        push_note(&mut out, t, note.as_slice());
    }
    assert(string_views(out@) =~= steps_part(c) + token_part(c, strategy) + publish_part(c, has_publish));
    push_line(&mut out, String::new());
    assert(string_views(out@) =~= next_steps_lines(c, has_publish, strategy));
    text::join_strings(&out, "\n")
}


/// Everything that can stop `init`.
#[derive(Debug, Clone)]
pub enum InitError {
    Exists { path: String },
    /// `init` is the one interactive command; a CI job that reaches it has
    /// a configuration bug, not a terminal problem.
    NotInteractive,
    /// A file system failure; `message` is the system's.
    Io { verb: String, path: String, message: String },
}

pub open spec fn init_error_message(e: InitError) -> Seq<char> {
    match e {
        InitError::Exists { path } => path@ + " already exists"@,
        InitError::NotInteractive => "`gh ship init` requires an interactive terminal"@,
        InitError::Io { verb, path, message } => "could not "@ + verb@ + " "@ + path@ + ": "@ + message@,
    }
}

pub open spec fn init_error_help(e: InitError) -> Seq<char> {
    match e {
        InitError::Exists { .. } => "pass `--force` to overwrite it, or edit it directly"@,
        InitError::NotInteractive => "`init` asks which workflows to use, so it needs a terminal. In automation, write .github/ship.yml directly — see https://noirbizarre.github.io/gh-ship/configuration/"@,
        InitError::Io { .. } => "check the path exists and is writable, then re-run `gh ship init`"@,
    }
}

impl InitError {
    pub fn message(&self) -> (r: String)
        ensures
            r@ == init_error_message(*self),
    {
        match self {
            InitError::Exists { path } => concat2(path.as_str(), " already exists"),
            InitError::NotInteractive => owned("`gh ship init` requires an interactive terminal"),
            InitError::Io { verb, path, message } => {
                let mut out = concat3("could not ", verb.as_str(), " ");
                push_str(&mut out, path.as_str());
                push_str(&mut out, ": ");
                push_str(&mut out, message.as_str());
                out
            },
        }
    }

    pub fn help(&self) -> (r: String)
        ensures
            r@ == init_error_help(*self),
    {
        match self {
            InitError::Exists { .. } => owned("pass `--force` to overwrite it, or edit it directly"),
            InitError::NotInteractive => owned("`init` asks which workflows to use, so it needs a terminal. In automation, write .github/ship.yml directly — see https://noirbizarre.github.io/gh-ship/configuration/"),
            InitError::Io { .. } => owned("check the path exists and is writable, then re-run `gh ship init`"),
        }
    }
}

/// The diagnostic code of each kind of [`InitError`].
pub open spec fn init_code(e: InitError) -> Seq<char> {
    match e {
        InitError::Exists { .. } => "ship::init::exists"@,
        InitError::NotInteractive => "ship::init::not_interactive"@,
        InitError::Io { .. } => "ship::init::io"@,
    }
}

impl InitError {
    /// The diagnostic code that names this kind of error.
    pub fn code(&self) -> (r: &'static str)
        ensures
            r@ == init_code(*self),
    {
        match self {
            InitError::Exists { .. } => "ship::init::exists",
            InitError::NotInteractive => "ship::init::not_interactive",
            InitError::Io { .. } => "ship::init::io",
        }
    }
}

} // verus!
