//! Pull Request rendering, and the artifact that rides in a PR body.
//!
//! The workflow supplies data; gh-ship renders the presentation.
//! Templates are MiniJinja, and the release artifact is the root context:
//! `{{ version }}`, `{{ tag }}`, `{{ release.notes }}`.
//!
//! gh-ship keeps no local state: `gh ship release` needs the artifact that
//! `gh ship prepare` validated, possibly days later and elsewhere, so the
//! artifact travels in the PR body inside an HTML comment.

use vstd::prelude::*;

use crate::artifact::codec;
use crate::artifact::json::{self, parse_json, to_value, Json};
use crate::artifact::model::{self, Artifact, ArtifactView};
use crate::artifact::span::Span;
use crate::config::PullRequestConfig;
use crate::text::{self, joined_by, chars_of, concat2, concat3, find_index, is_blank, owned, push_str, replace_all, string_of_range, trimmed, trimmed_end};

verus! {

/// Marker opening the embedded artifact in a PR body.
pub const ARTIFACT_MARKER_START: &'static str = "<!-- ship:artifact";

/// Marker closing it.
pub const ARTIFACT_MARKER_END: &'static str = "-->";

/// How a template failed, as MiniJinja classifies it.
#[derive(Debug, Clone, Copy, PartialEq, Eq)]
pub enum TemplateFailureKind {
    Undefined,
    Syntax,
    Other,
}

/// What MiniJinja reports when a template does not render.
#[derive(Debug, Clone)]
pub struct TemplateFailure {
    pub message: String,
    /// The byte range of the offending source, when known.
    pub range: Option<(usize, usize)>,
    pub kind: TemplateFailureKind,
}

/// What MiniJinja renders for `template` with the JSON document whose
/// compact text is `context` as the root context.
pub uninterp spec fn template_rendering(template: Seq<char>, context: Seq<char>) -> Result<Seq<char>, TemplateFailure>;

/// `minijinja::Environment::new().render_str(template, context)`, the
/// context being the document `context` describes.
#[verifier::external_body]
fn render_str(template: &str, context: &Json) -> (r: Result<String, TemplateFailure>)
    ensures
        match template_rendering(template@, json::json_text(*context)) {
            Ok(s) => r matches Ok(x) && x@ == s,
            Err(f) => r matches Err(e) && e == f,
        },
{
    let env = minijinja::Environment::new();
    let ctx = minijinja::Value::from_serialize(&to_value(context));
    env.render_str(template, ctx).map_err(|e| TemplateFailure {
        message: e.to_string(),
        range: e.range().map(|r| (r.start, r.end)),
        kind: match e.kind() {
            minijinja::ErrorKind::UndefinedError => TemplateFailureKind::Undefined,
            minijinja::ErrorKind::SyntaxError => TemplateFailureKind::Syntax,
            _ => TemplateFailureKind::Other,
        },
    })
}

/// Whose vocabulary a template's help speaks.
#[derive(Debug, Clone, Copy, PartialEq, Eq)]
pub enum TemplateTopic {
    /// Templates rendered against the release artifact.
    Artifact,
    /// `release_branch`, rendered against the base branch.
    Branch,
}

/// Errors raised while rendering a template.
#[derive(Debug, Clone)]
pub struct TemplateError {
    pub field: String,
    pub message: String,
    /// The template source, for the diagnostic.
    pub template: String,
    pub span: Span,
    pub help: String,
}

pub struct TemplateErrorView {
    pub field: Seq<char>,
    pub message: Seq<char>,
    pub template: Seq<char>,
    pub span: Span,
    pub help: Seq<char>,
}

impl View for TemplateError {
    type V = TemplateErrorView;

    open spec fn view(&self) -> TemplateErrorView {
        TemplateErrorView {
            field: self.field@,
            message: self.message@,
            template: self.template@,
            span: self.span,
            help: self.help@,
        }
    }
}

impl TemplateError {
    /// The diagnostic code of a template that does not render.
    pub fn code(&self) -> (r: &'static str)
        ensures
            r@ == "ship::template"@,
    {
        "ship::template"
    }

    /// What failed, as the diagnostic's headline.
    pub fn message(&self) -> (r: String)
        ensures
            r@ == "failed to render `"@ + self.field@ + "`: "@ + self.message@,
    {
        let mut out = concat3("failed to render `", self.field.as_str(), "`: ");
        push_str(&mut out, self.message.as_str());
        out
    }
}

/// Guidance for a failed template, in gh-ship's vocabulary.
pub open spec fn template_help_of(topic: TemplateTopic, kind: TemplateFailureKind) -> Seq<char> {
    match kind {
        TemplateFailureKind::Undefined => match topic {
            TemplateTopic::Artifact => "the release artifact is the root context, so use `{{ version }}`, `{{ tag }}`, `{{ release.notes }}` — not `{{ release.version }}`"@,
            TemplateTopic::Branch => "the base branch is the context here: use `{{ branch }}` for the whole name, or `{{ match }}` for what a `*` in the `branches` entry captured"@,
        },
        TemplateFailureKind::Syntax => "check the template syntax; `{{ }}` interpolates and `{% %}` controls flow"@,
        TemplateFailureKind::Other => match topic {
            TemplateTopic::Artifact => "see https://noirbizarre.github.io/gh-ship/configuration/#templates"@,
            TemplateTopic::Branch => "see https://noirbizarre.github.io/gh-ship/configuration/#release-lines"@,
        },
    }
}

/// Turn a template failure kind into guidance.
pub fn template_help(topic: TemplateTopic, kind: TemplateFailureKind) -> (r: String)
    ensures
        r@ == template_help_of(topic, kind),
{
    match kind {
        TemplateFailureKind::Undefined => match topic {
            TemplateTopic::Artifact => owned(
                "the release artifact is the root context, so use `{{ version }}`, `{{ tag }}`, `{{ release.notes }}` — not `{{ release.version }}`",
            ),
            TemplateTopic::Branch => owned(
                "the base branch is the context here: use `{{ branch }}` for the whole name, or `{{ match }}` for what a `*` in the `branches` entry captured",
            ),
        },
        TemplateFailureKind::Syntax => owned("check the template syntax; `{{ }}` interpolates and `{% %}` controls flow"),
        TemplateFailureKind::Other => match topic {
            TemplateTopic::Artifact => owned("see https://noirbizarre.github.io/gh-ship/configuration/#templates"),
            TemplateTopic::Branch => owned("see https://noirbizarre.github.io/gh-ship/configuration/#release-lines"),
        },
    }
}

/// The error a failed template becomes.
pub open spec fn template_problem(
    field: Seq<char>,
    template: Seq<char>,
    topic: TemplateTopic,
    f: TemplateFailure,
) -> TemplateErrorView {
    TemplateErrorView {
        field,
        message: f.message@,
        template,
        span: match f.range {
            Some((s, e)) => if s <= e {
                Span { offset: s, len: (e - s) as usize }
            } else {
                Span { offset: s, len: 0 }
            },
            None => Span { offset: 0, len: 0 },
        },
        help: template_help_of(topic, f.kind),
    }
}

/// Rendering a template against a context text: its output, or the error.
pub open spec fn template_outcome(
    field: Seq<char>,
    template: Seq<char>,
    context: Seq<char>,
    topic: TemplateTopic,
) -> Result<Seq<char>, TemplateErrorView> {
    match template_rendering(template, context) {
        Ok(s) => Ok(s),
        Err(f) => Err(template_problem(field, template, topic, f)),
    }
}

pub open spec fn string_outcome(r: Result<String, TemplateError>) -> Result<Seq<char>, TemplateErrorView> {
    match r {
        Ok(s) => Ok(s@),
        Err(e) => Err(e@),
    }
}

/// Render `template` for `field` with `context` as the root context.
pub fn render_template(field: &str, template: &str, context: &Json, topic: TemplateTopic) -> (r: Result<String, TemplateError>)
    ensures
        string_outcome(r) == template_outcome(field@, template@, json::json_text(*context), topic),
{
    match render_str(template, context) {
        Ok(s) => Ok(s),
        Err(f) => {
            let span = match f.range {
                Some((s, e)) => if s <= e {
                    Span::new(s, e - s)
                } else {
                    Span::new(s, 0)
                },
                None => Span::new(0, 0),
            };
            Err(TemplateError {
                field: owned(field),
                message: f.message,
                template: owned(template),
                span,
                help: template_help(topic, f.kind),
            })
        },
    }
}

// --- The Release PR -------------------------------------------------------------

/// A rendered Release PR.
#[derive(Debug, Clone, PartialEq)]
pub struct RenderedPullRequest {
    pub title: String,
    pub body: String,
    pub labels: Vec<String>,
}

pub struct RenderedView {
    pub title: Seq<char>,
    pub body: Seq<char>,
    pub labels: Seq<Seq<char>>,
}

impl View for RenderedPullRequest {
    type V = RenderedView;

    open spec fn view(&self) -> RenderedView {
        RenderedView { title: self.title@, body: self.body@, labels: model::strings_view(self.labels@) }
    }
}

/// A part of the body, when it has anything but whitespace: trimmed.
pub open spec fn kept_part(s: Seq<char>) -> Seq<Seq<char>> {
    if text::trim(s).len() > 0 {
        seq![text::trim(s)]
    } else {
        Seq::empty()
    }
}

pub open spec fn opt_part(o: Option<Seq<char>>) -> Seq<Seq<char>> {
    match o {
        Some(s) => kept_part(s),
        None => Seq::empty(),
    }
}

/// Header, notes and footer, trimmed, the empty ones dropped, with one
/// blank line between the rest.
pub open spec fn assembled(header: Option<Seq<char>>, notes: Seq<char>, footer: Option<Seq<char>>) -> Seq<char> {
    joined_by(opt_part(header) + kept_part(notes) + opt_part(footer), "\n\n"@)
}

/// `base` followed by the labels of `extra` it does not already have.
pub open spec fn merged_labels(base: Seq<Seq<char>>, extra: Seq<Seq<char>>) -> Seq<Seq<char>>
    decreases extra.len(),
{
    if extra.len() == 0 {
        base
    } else {
        let m = merged_labels(base, extra.drop_last());
        if m.contains(extra.last()) {
            m
        } else {
            m.push(extra.last())
        }
    }
}

pub open spec fn title_override(a: ArtifactView) -> Option<Seq<char>> {
    match a.pull_request {
        Some(p) => p.title,
        None => None,
    }
}

pub open spec fn body_override(a: ArtifactView) -> Option<Seq<char>> {
    match a.pull_request {
        Some(p) => p.body,
        None => None,
    }
}

pub open spec fn artifact_labels(a: ArtifactView) -> Seq<Seq<char>> {
    match a.pull_request {
        Some(p) => p.labels,
        None => Seq::empty(),
    }
}

/// An optional template's outcome: nothing when there is no template.
pub open spec fn optional_outcome(field: Seq<char>, t: Option<String>, context: Seq<char>) -> Result<Option<Seq<char>>, TemplateErrorView> {
    match t {
        None => Ok(None),
        Some(t) => match template_outcome(field, t@, context, TemplateTopic::Artifact) {
            Ok(s) => Ok(Some(s)),
            Err(e) => Err(e),
        },
    }
}

/// The Release PR for an artifact: the artifact's own title and body
/// when it supplies them, else the configured templates rendered against
/// it; the configured labels followed by the artifact's new ones.
pub open spec fn rendered_pull_request(cfg: PullRequestConfig, a: ArtifactView) -> Result<RenderedView, TemplateErrorView> {
    let ctx = codec::artifact_text(a);
    let title = match title_override(a) {
        Some(t) => Ok(t),
        None => template_outcome("pull_request.title"@, cfg.title@, ctx, TemplateTopic::Artifact),
    };
    match title {
        Err(e) => Err(e),
        Ok(title) => {
            let body = match body_override(a) {
                Some(b) => Ok(b),
                None => match optional_outcome("pull_request.header"@, cfg.header, ctx) {
                    Err(e) => Err(e),
                    Ok(h) => match optional_outcome("pull_request.footer"@, cfg.footer, ctx) {
                        Err(e) => Err(e),
                        Ok(f) => Ok(assembled(h, model::notes_of(a), f)),
                    },
                },
            };
            match body {
                Err(e) => Err(e),
                Ok(body) => Ok(
                    RenderedView {
                        title,
                        body,
                        labels: merged_labels(model::strings_view(cfg.labels@), artifact_labels(a)),
                    },
                ),
            }
        },
    }
}

pub open spec fn opt_str_view(o: Option<&str>) -> Option<Seq<char>> {
    match o {
        Some(s) => Some(s@),
        None => None,
    }
}

fn push_kept(parts: &mut Vec<String>, s: &str)
    ensures
        model::strings_view(final(parts)@) == model::strings_view(old(parts)@) + kept_part(s@),
{
    let t = trimmed(s);
    if !t.as_str().is_empty() {
        let ghost before = model::strings_view(parts@);
        let ghost tv = t@;
        parts.push(t);
        assert(model::strings_view(parts@) =~= before + seq![tv]);
    } else {
        assert(model::strings_view(parts@) =~= model::strings_view(parts@) + Seq::<Seq<char>>::empty());
    }
}

/// Join header, notes and footer with exactly one blank line between the
/// parts that are present.
pub fn assemble_body(header: Option<&str>, notes: &str, footer: Option<&str>) -> (r: String)
    ensures
        r@ == assembled(opt_str_view(header), notes@, opt_str_view(footer)),
{
    let mut parts: Vec<String> = Vec::new();
    match header {
        Some(h) => push_kept(&mut parts, h),
        None => {},
    }
    push_kept(&mut parts, notes);
    match footer {
        Some(f) => push_kept(&mut parts, f),
        None => {},
    }
    let ghost ps = model::strings_view(parts@);
    assert(ps =~= opt_part(opt_str_view(header)) + kept_part(notes@) + opt_part(opt_str_view(footer)));
    let mut out = String::new();
    let mut i: usize = 0;
    assert(ps.take(0) =~= Seq::<Seq<char>>::empty());
    while i < parts.len()
        invariant
            i <= parts@.len(),
            ps == model::strings_view(parts@),
            out@ == joined_by(ps.take(i as int), "\n\n"@),
        decreases parts.len() - i,
    {
        assert(ps.take(i + 1).drop_last() =~= ps.take(i as int));
        if i > 0 {
            push_str(&mut out, "\n\n");
        }
        push_str(&mut out, parts[i].as_str());
        i += 1;
    }
    assert(ps.take(i as int) =~= ps);
    out
}

fn contains_string(v: &Vec<String>, s: &String) -> (r: bool)
    ensures
        r == model::strings_view(v@).contains(s@),
{
    let mut i: usize = 0;
    while i < v.len()
        invariant
            i <= v@.len(),
            forall|j: int| 0 <= j < i ==> model::strings_view(v@)[j] != s@,
        decreases v.len() - i,
    {
        if text::str_eq(v[i].as_str(), s.as_str()) {
            assert(model::strings_view(v@)[i as int] == s@);
            return true;
        }
        i += 1;
    }
    false
}

fn render_optional(field: &str, template: &Option<String>, context: &Json) -> (r: Result<Option<String>, TemplateError>)
    ensures
        match optional_outcome(field@, *template, json::json_text(*context)) {
            Ok(o) => r matches Ok(x) && model::opt_view(x) == o,
            Err(e) => r matches Err(x) && x@ == e,
        },
{
    match template {
        None => Ok(None),
        Some(t) => match render_template(field, t.as_str(), context, TemplateTopic::Artifact) {
            Ok(s) => Ok(Some(s)),
            Err(e) => Err(e),
        },
    }
}

pub open spec fn rendered_outcome(r: Result<RenderedPullRequest, TemplateError>) -> Result<RenderedView, TemplateErrorView> {
    match r {
        Ok(p) => Ok(p@),
        Err(e) => Err(e@),
    }
}

/// Render the Release PR for an artifact.
pub fn render(config: &PullRequestConfig, artifact: &Artifact) -> (r: Result<RenderedPullRequest, TemplateError>)
    ensures
        rendered_outcome(r) == rendered_pull_request(*config, artifact@),
{
    let context = codec::artifact_json(artifact);
    let title_o: Option<&String> = match &artifact.pull_request {
        Some(p) => match &p.title {
            Some(t) => Some(t),
            None => None,
        },
        None => None,
    };
    let title = match title_o {
        Some(t) => t.clone(),
        None => match render_template("pull_request.title", config.title.as_str(), &context, TemplateTopic::Artifact) {
            Ok(t) => t,
            Err(e) => return Err(e),
        },
    };
    let body_o: Option<&String> = match &artifact.pull_request {
        Some(p) => match &p.body {
            Some(b) => Some(b),
            None => None,
        },
        None => None,
    };
    let body = match body_o {
        Some(b) => b.clone(),
        None => {
            let header = match render_optional("pull_request.header", &config.header, &context) {
                Ok(h) => h,
                Err(e) => return Err(e),
            };
            let footer = match render_optional("pull_request.footer", &config.footer, &context) {
                Ok(f) => f,
                Err(e) => return Err(e),
            };
            let h: Option<&str> = match &header {
                Some(h) => Some(h.as_str()),
                None => None,
            };
            let f: Option<&str> = match &footer {
                Some(f) => Some(f.as_str()),
                None => None,
            };
            assemble_body(h, artifact.notes(), f)
        },
    };
    let mut labels = config.labels.clone();
    assert(model::strings_view(labels@) == model::strings_view(config.labels@)) by {
        assert(labels@ =~= config.labels@);
    }
    let ghost base = model::strings_view(config.labels@);
    let ghost extra = artifact_labels(artifact@);
    match &artifact.pull_request {
        Some(pr) => {
            let mut i: usize = 0;
            assert(extra.take(0) =~= Seq::<Seq<char>>::empty());
            while i < pr.labels.len()
                invariant
                    i <= pr.labels@.len(),
                    extra == model::strings_view(pr.labels@),
                    model::strings_view(labels@) == merged_labels(base, extra.take(i as int)),
                decreases pr.labels.len() - i,
            {
                assert(extra.take(i + 1).drop_last() =~= extra.take(i as int));
                assert(extra.take(i + 1).last() == pr.labels@[i as int]@);
                if !contains_string(&labels, &pr.labels[i]) {
                    let ghost before = model::strings_view(labels@);
                    let l = pr.labels[i].clone();
                    let ghost lv = l@;
                    labels.push(l);
                    assert(model::strings_view(labels@) =~= before.push(lv));
                }
                i += 1;
            }
            assert(extra.take(i as int) =~= extra);
        },
        None => {},
    }
    Ok(RenderedPullRequest { title, body, labels })
}

// --- The embedded artifact ------------------------------------------------------

/// The first embedded-artifact block of a body: where its start marker
/// begins and where its end marker begins.
pub open spec fn block_bounds(body: Seq<char>) -> Option<(int, int)> {
    match text::find_spec(body, ARTIFACT_MARKER_START@, 0) {
        None => None,
        Some(i) => match text::find_spec(body, ARTIFACT_MARKER_END@, i + ARTIFACT_MARKER_START@.len()) {
            None => None,
            Some(j) => Some((i, j)),
        },
    }
}

/// A body without its first embedded-artifact block.
pub open spec fn stripped(body: Seq<char>) -> Seq<char> {
    match block_bounds(body) {
        None => body,
        Some((i, j)) => body.take(i) + body.skip(j + ARTIFACT_MARKER_END@.len()),
    }
}

/// The artifact's text as it rides in a comment: `-->` cannot close the
/// comment early, because its `>` is written as the JSON escape `\u003e`.
pub open spec fn payload_of(a: ArtifactView) -> Seq<char> {
    text::replaced(codec::artifact_text(a), "-->"@, "--\\u003e"@)
}

pub open spec fn block_of(a: ArtifactView) -> Seq<char> {
    ARTIFACT_MARKER_START@ + "\n"@ + payload_of(a) + "\n"@ + ARTIFACT_MARKER_END@
}

/// A body with the artifact embedded, replacing any previous copy.
pub open spec fn embedded(body: Seq<char>, a: ArtifactView) -> Seq<char> {
    let s = stripped(body);
    if text::trim(s).len() == 0 {
        block_of(a)
    } else {
        text::trim_end(s) + "\n\n"@ + block_of(a) + "\n"@
    }
}

/// The artifact a body carries: the first block's trimmed content, read
/// as JSON and decoded; `None` when there is no block or it does not read.
pub open spec fn extracted(body: Seq<char>) -> Option<ArtifactView> {
    match block_bounds(body) {
        None => None,
        Some((i, j)) => match json::json_parsed(text::trim(body.subrange(i + ARTIFACT_MARKER_START@.len(), j))) {
            Ok(v) => codec::decode_artifact(v),
            Err(_) => None,
        },
    }
}

fn block_bounds_of(chars: &Vec<char>) -> (r: Option<(usize, usize)>)
    ensures
        match r {
            Some((i, j)) => block_bounds(chars@) == Some((i as int, j as int)) && i + ARTIFACT_MARKER_START@.len() <= j
                && j + ARTIFACT_MARKER_END@.len() <= chars@.len(),
            None => block_bounds(chars@) is None,
        },
{
    let start = chars_of(ARTIFACT_MARKER_START);
    let end = chars_of(ARTIFACT_MARKER_END);
    let _n = chars.len();
    let i = match find_index(chars.as_slice(), start.as_slice(), 0) {
        Some(i) => i,
        None => return None,
    };
    proof {
        lemma_find_spec_occurs(chars@, ARTIFACT_MARKER_START@, 0);
    }
    let after = i + start.len();
    let j = match find_index(chars.as_slice(), end.as_slice(), after) {
        Some(j) => j,
        None => return None,
    };
    proof {
        lemma_find_spec_occurs(chars@, ARTIFACT_MARKER_END@, after as int);
    }
    Some((i, j))
}

proof fn lemma_find_spec_occurs(s: Seq<char>, p: Seq<char>, from: int)
    ensures
        text::find_spec(s, p, from) matches Some(i) ==> from <= i && text::occurs_at(s, p, i),
    decreases s.len() - from,
{
    if !(from < 0 || from + p.len() > s.len()) && !text::occurs_at(s, p, from) && from < s.len() {
        lemma_find_spec_occurs(s, p, from + 1);
    }
}

/// Remove the first embedded-artifact block from a body.
pub fn strip_artifact(body: &str) -> (r: String)
    ensures
        r@ == stripped(body@),
{
    let chars = chars_of(body);
    match block_bounds_of(&chars) {
        None => owned(body),
        Some((i, j)) => {
            proof {
                reveal_strlit("-->");
            }
            let n = chars.len();
            let mut out = string_of_range(chars.as_slice(), 0, i);
            let tail = string_of_range(chars.as_slice(), j + 3, n);
            push_str(&mut out, tail.as_str());
            assert(chars@.take(i as int) =~= chars@.subrange(0, i as int));
            assert(chars@.skip(j + 3) =~= chars@.subrange(j + 3, chars@.len() as int));
            out
        },
    }
}

/// Embed an artifact into a PR body, replacing any previous copy.
pub fn embed_artifact(body: &str, artifact: &Artifact) -> (r: String)
    ensures
        r@ == embedded(body@, artifact@),
{
    let text = codec::artifact_to_string(artifact);
    proof {
        reveal_strlit("-->");
    }
    let json = replace_all(text.as_str(), "-->", "--\\u003e");
    let mut block = concat3(ARTIFACT_MARKER_START, "\n", json.as_str());
    push_str(&mut block, "\n");
    push_str(&mut block, ARTIFACT_MARKER_END);
    let stripped = strip_artifact(body);
    if is_blank(stripped.as_str()) {
        block
    } else {
        let mut out = trimmed_end(stripped.as_str());
        push_str(&mut out, "\n\n");
        push_str(&mut out, block.as_str());
        push_str(&mut out, "\n");
        out
    }
}

/// Recover an artifact previously embedded in a PR body; `None` when the
/// body carries none, or one that does not read.
pub fn extract_artifact(body: &str) -> (r: Option<Artifact>)
    ensures
        match extracted(body@) {
            Some(a) => r matches Some(x) && x@ == a,
            None => r is None,
        },
{
    let chars = chars_of(body);
    let (i, j) = match block_bounds_of(&chars) {
        Some(b) => b,
        None => return None,
    };
    proof {
        reveal_strlit("<!-- ship:artifact");
    }
    let inner = string_of_range(chars.as_slice(), i + 18, j);
    let payload = trimmed(inner.as_str());
    match parse_json(payload.as_str()) {
        Ok(v) => match codec::artifact_from_json(&v) {
            Ok(a) => Some(a),
            Err(()) => None,
        },
        Err(_) => None,
    }
}


// --- What embedding promises ----------------------------------------------------

/// What a `-->` in the artifact's text is written as.
pub open spec fn escaped_end() -> Seq<char> {
    "--\\u003e"@
}

proof fn lemma_literals()
    ensures
        ARTIFACT_MARKER_START@ =~= seq!['<', '!', '-', '-', ' ', 's', 'h', 'i', 'p', ':', 'a', 'r', 't', 'i', 'f', 'a', 'c', 't'],
        ARTIFACT_MARKER_END@ =~= seq!['-', '-', '>'],
        escaped_end() =~= seq!['-', '-', '\\', 'u', '0', '0', '3', 'e'],
        "\n"@ =~= seq!['\n'],
        "\n\n"@ =~= seq!['\n', '\n'],
{
    reveal_strlit("<!-- ship:artifact");
    reveal_strlit("-->");
    reveal_strlit("--\\u003e");
    reveal_strlit("\n");
    reveal_strlit("\n\n");
}

proof fn lemma_replaced_short(s: Seq<char>)
    requires
        s.len() < 3,
    ensures
        text::replaced(s, ARTIFACT_MARKER_END@, escaped_end()) == s,
    decreases s.len(),
{
    lemma_literals();
    if s.len() > 0 {
        assert(!text::is_prefix(ARTIFACT_MARKER_END@, s));
        lemma_replaced_short(s.drop_first());
        assert(seq![s[0]] + s.drop_first() =~= s);
    }
}

/// Escaping keeps the first two characters, and never shortens the text.
proof fn lemma_replaced_head(s: Seq<char>)
    ensures
        text::replaced(s, ARTIFACT_MARKER_END@, escaped_end()).len() >= s.len(),
        s.len() >= 1 ==> text::replaced(s, ARTIFACT_MARKER_END@, escaped_end())[0] == s[0],
        s.len() >= 2 ==> text::replaced(s, ARTIFACT_MARKER_END@, escaped_end())[1] == s[1],
    decreases s.len(),
{
    lemma_literals();
    let n = ARTIFACT_MARKER_END@;
    if s.len() > 0 {
        if text::is_prefix(n, s) {
            lemma_replaced_head(s.skip(3));
            assert(s.subrange(0, 3)[0] == s[0]);
            assert(s.subrange(0, 3)[1] == s[1]);
        } else {
            lemma_replaced_head(s.drop_first());
        }
    }
}

/// Escaping keeps the last character, unless it is the `>` of a `-->`.
proof fn lemma_replaced_last(s: Seq<char>)
    requires
        s.len() > 0,
        s.last() != '>',
    ensures
        text::replaced(s, ARTIFACT_MARKER_END@, escaped_end()).len() > 0,
        text::replaced(s, ARTIFACT_MARKER_END@, escaped_end()).last() == s.last(),
    decreases s.len(),
{
    lemma_literals();
    let n = ARTIFACT_MARKER_END@;
    if text::is_prefix(n, s) {
        if s.len() == 3 {
            assert(s.last() == s.subrange(0, 3)[2]);
        } else {
            assert(s.skip(3).last() == s.last());
            lemma_replaced_last(s.skip(3));
        }
    } else if s.len() > 1 {
        assert(s.drop_first().last() == s.last());
        lemma_replaced_last(s.drop_first());
    }
}

/// Once escaped, the artifact's text holds no `-->` to close the comment.
proof fn lemma_replaced_clean(s: Seq<char>)
    ensures
        !text::contains(text::replaced(s, ARTIFACT_MARKER_END@, escaped_end()), ARTIFACT_MARKER_END@),
    decreases s.len(),
{
    lemma_literals();
    let n = ARTIFACT_MARKER_END@;
    let t = escaped_end();
    let r = text::replaced(s, n, t);
    if s.len() == 0 {
    } else if text::is_prefix(n, s) {
        let rest = s.skip(3);
        lemma_replaced_clean(rest);
        let r2 = text::replaced(rest, n, t);
        assert(r == t + r2);
        assert forall|k: int| !text::occurs_at(r, n, k) by {
            if text::occurs_at(r, n, k) {
                assert(r.subrange(k, k + 3)[0] == r[k]);
                assert(r.subrange(k, k + 3)[2] == r[k + 2]);
                if k + 2 < 8 {
                    assert(r[k + 2] == t[k + 2]);
                } else if k < 8 {
                    assert(r[k] == t[k]);
                } else {
                    assert(r2.subrange(k - 8, k - 5) =~= r.subrange(k, k + 3));
                    assert(text::occurs_at(r2, n, k - 8));
                }
            }
        }
    } else {
        let rest = s.drop_first();
        lemma_replaced_clean(rest);
        let r2 = text::replaced(rest, n, t);
        assert(r == seq![s[0]] + r2);
        assert forall|k: int| !text::occurs_at(r, n, k) by {
            if text::occurs_at(r, n, k) {
                if k == 0 {
                    if rest.len() < 2 {
                        lemma_replaced_short(rest);
                    }
                    lemma_replaced_head(rest);
                    assert(r.subrange(0, 3)[0] == s[0]);
                    assert(r.subrange(0, 3)[1] == r2[0]);
                    assert(r.subrange(0, 3)[2] == r2[1]);
                    assert(s.subrange(0, 3) =~= n);
                } else {
                    assert(r2.subrange(k - 1, k + 2) =~= r.subrange(k, k + 3));
                    assert(text::occurs_at(r2, n, k - 1));
                }
            }
        }
    }
}

/// The payload starts with the `{` and ends with the `}` of the artifact's
/// object, so there is no whitespace around it.
proof fn lemma_payload_ends(a: ArtifactView)
    ensures
        payload_of(a).len() > 0,
        payload_of(a)[0] == '{',
        payload_of(a).last() == '}',
{
    let s = codec::artifact_text(a);
    assert(s[0] == '{');
    assert(s.last() == '}');
    lemma_replaced_head(s);
    lemma_replaced_last(s);
}

proof fn lemma_find_first(s: Seq<char>, p: Seq<char>, from: int, k: int)
    requires
        0 <= from <= k,
        text::occurs_at(s, p, k),
        forall|j: int| from <= j < k ==> !text::occurs_at(s, p, j),
    ensures
        text::find_spec(s, p, from) == Some(k),
    decreases k - from,
{
    if from < k {
        assert(!text::occurs_at(s, p, from));
        lemma_find_first(s, p, from + 1, k);
    }
}

/// A character of a text at a position inside an occurrence of `p` is the
/// matching character of `p`.
proof fn lemma_occurrence_char(s: Seq<char>, p: Seq<char>, j: int, q: int)
    requires
        text::occurs_at(s, p, j),
        j <= q < j + p.len(),
    ensures
        s[q] == p[q - j],
{
    assert(s.subrange(j, j + p.len())[q - j] == s[q]);
}

/// The text before the block of an embedded body: nothing, or the body's
/// own text, trimmed, and a blank line.
pub open spec fn lead_of(body: Seq<char>) -> Seq<char> {
    let s = stripped(body);
    if text::trim(s).len() == 0 { Seq::empty() } else { text::trim_end(s) + "\n\n"@ }
}

proof fn lemma_embedded_shape(body: Seq<char>, a: ArtifactView)
    ensures
        embedded(body, a) == lead_of(body) + block_of(a) + (if text::trim(stripped(body)).len() == 0 { Seq::<char>::empty() } else { "\n"@ }),
{
    let s = stripped(body);
    if text::trim(s).len() == 0 {
        assert(embedded(body, a) =~= lead_of(body) + block_of(a) + Seq::<char>::empty());
    } else {
        assert(embedded(body, a) =~= lead_of(body) + block_of(a) + "\n"@);
    }
}

/// A start marker that follows a blank line after a prefix of a text
/// without one is the first in the whole.
proof fn lemma_first_start_after(s: Seq<char>, te: Seq<char>, rest: Seq<char>)
    requires
        te.len() <= s.len(),
        te == s.subrange(0, te.len() as int),
        !text::contains(s, ARTIFACT_MARKER_START@),
        text::is_prefix(ARTIFACT_MARKER_START@, rest),
    ensures
        text::find_spec(te + seq!['\n', '\n'] + rest, ARTIFACT_MARKER_START@, 0) == Some(te.len() as int + 2),
{
    lemma_literals();
    let st = ARTIFACT_MARKER_START@;
    let e = te + seq!['\n', '\n'] + rest;
    let tl = te.len() as int;
    assert(e.subrange(tl + 2, tl + 20) =~= rest.subrange(0, 18));
    assert forall|j: int| 0 <= j < tl + 2 implies !text::occurs_at(e, st, j) by {
        if text::occurs_at(e, st, j) {
            if j + 18 <= tl {
                assert(e.subrange(j, j + 18) =~= s.subrange(j, j + 18));
                assert(text::occurs_at(s, st, j));
            } else {
                let q = if j <= tl { tl } else { tl + 1 };
                assert(e[q] == '\n');
                lemma_occurrence_char(e, st, j, q);
            }
        }
    }
    lemma_find_first(e, st, 0, tl + 2);
}

proof fn lemma_start_found(body: Seq<char>, a: ArtifactView)
    requires
        !text::contains(stripped(body), ARTIFACT_MARKER_START@),
    ensures
        text::find_spec(embedded(body, a), ARTIFACT_MARKER_START@, 0) == Some(lead_of(body).len() as int),
{
    lemma_literals();
    let st = ARTIFACT_MARKER_START@;
    let s = stripped(body);
    let rest = block_of(a) + (if text::trim(s).len() == 0 { Seq::<char>::empty() } else { "\n"@ });
    lemma_embedded_shape(body, a);
    assert(rest.subrange(0, 18) =~= st);
    if text::trim(s).len() == 0 {
        assert(embedded(body, a) =~= rest);
        lemma_find_first(rest, st, 0, 0);
    } else {
        let te = text::trim_end(s);
        text::lemma_trim_end_is_prefix(s);
        assert(embedded(body, a) =~= te + seq!['\n', '\n'] + rest);
        lemma_first_start_after(s, te, rest);
    }
}

proof fn lemma_end_found(body: Seq<char>, a: ArtifactView)
    ensures
        text::find_spec(embedded(body, a), ARTIFACT_MARKER_END@, lead_of(body).len() as int + 18)
            == Some(lead_of(body).len() as int + 20 + payload_of(a).len()),
{
    lemma_literals();
    let en = ARTIFACT_MARKER_END@;
    let pay = payload_of(a);
    let e = embedded(body, a);
    lemma_embedded_shape(body, a);
    let lp = lead_of(body).len() as int;
    let pl = pay.len() as int;
    let close = lp + 20 + pl;
    assert(e.subrange(close, close + 3) =~= en);
    lemma_replaced_clean(codec::artifact_text(a));
    assert forall|j: int| lp + 18 <= j < close implies !text::occurs_at(e, en, j) by {
        if text::occurs_at(e, en, j) {
            if j >= lp + 19 && j + 3 <= lp + 19 + pl {
                assert(pay.subrange(j - lp - 19, j - lp - 16) =~= e.subrange(j, j + 3));
                assert(text::occurs_at(pay, en, j - lp - 19));
            } else if j == lp + 18 {
                lemma_occurrence_char(e, en, j, j);
            } else {
                lemma_occurrence_char(e, en, j, lp + 19 + pl);
            }
        }
    }
    lemma_find_first(e, en, lp + 18, close);
}

proof fn lemma_inner(body: Seq<char>, a: ArtifactView)
    ensures
        text::trim(
            embedded(body, a).subrange(lead_of(body).len() as int + 18, lead_of(body).len() as int + 20 + payload_of(a).len()),
        ) == payload_of(a),
{
    lemma_literals();
    let pay = payload_of(a);
    let e = embedded(body, a);
    lemma_embedded_shape(body, a);
    let lp = lead_of(body).len() as int;
    let inner = e.subrange(lp + 18, lp + 20 + pay.len());
    assert(inner =~= seq!['\n'] + pay + seq!['\n']);
    lemma_payload_ends(a);
    assert(inner.drop_first() =~= pay + seq!['\n']);
    assert(text::trim_start(inner) == text::trim_start(pay + seq!['\n']));
    assert(text::trim_start(pay + seq!['\n']) == pay + seq!['\n']);
    assert((pay + seq!['\n']).drop_last() =~= pay);
    assert(text::trim_end(pay + seq!['\n']) == text::trim_end(pay));
    assert(text::trim_end(pay) == pay);
}

/// An artifact embedded in a PR body is the one read back from it: the
/// block it is written in is the first one found, and what is read is
/// exactly the text it was written as. The body must carry no other block
/// than the one embedding replaces.
pub proof fn lemma_embed_then_extract(body: Seq<char>, a: ArtifactView)
    requires
        !text::contains(stripped(body), ARTIFACT_MARKER_START@),
    ensures
        extracted(embedded(body, a)) == match json::json_parsed(payload_of(a)) {
            Ok(v) => codec::decode_artifact(v),
            Err(_) => None,
        },
{
    lemma_literals();
    lemma_start_found(body, a);
    lemma_end_found(body, a);
    lemma_inner(body, a);
    let lp = lead_of(body).len() as int;
    assert(block_bounds(embedded(body, a)) == Some((lp, lp + 20 + payload_of(a).len())));
}

/// What stripping a body with an artifact embedded leaves: nothing, or
/// the body's own text, its end trimmed, and the line breaks around the
/// block.
proof fn lemma_stripped_embedded(body: Seq<char>, a: ArtifactView)
    requires
        !text::contains(stripped(body), ARTIFACT_MARKER_START@),
    ensures
        stripped(embedded(body, a)) == (if text::trim(stripped(body)).len() == 0 {
            Seq::<char>::empty()
        } else {
            text::trim_end(stripped(body)) + seq!['\n', '\n', '\n']
        }),
{
    lemma_literals();
    lemma_start_found(body, a);
    lemma_end_found(body, a);
    lemma_embedded_shape(body, a);
    let s = stripped(body);
    let e = embedded(body, a);
    let lead = lead_of(body);
    let lp = lead.len() as int;
    let close = lp + 20 + payload_of(a).len();
    assert(block_bounds(e) == Some((lp, close)));
    let st2 = stripped(e);
    assert(st2 == e.take(lp) + e.skip(close + 3));
    if text::trim(s).len() == 0 {
        assert(st2 =~= Seq::<char>::empty());
    } else {
        let te = text::trim_end(s);
        assert(st2 =~= te + seq!['\n', '\n', '\n']);
    }
}

/// Embedding again replaces the earlier copy: a body that had one
/// artifact embedded and then another is the body with only the second.
pub proof fn lemma_embed_replaces(body: Seq<char>, a: ArtifactView, b: ArtifactView)
    requires
        !text::contains(stripped(body), ARTIFACT_MARKER_START@),
    ensures
        embedded(embedded(body, a), b) == embedded(body, b),
{
    lemma_stripped_embedded(body, a);
    let s = stripped(body);
    let st2 = stripped(embedded(body, a));
    if text::trim(s).len() == 0 {
        assert(text::trim(st2) =~= Seq::<char>::empty());
    } else {
        let te = text::trim_end(s);
        text::lemma_trim_end_is_prefix(s);
        text::lemma_trim_empty_iff_all_space(s);
        text::lemma_trim_end_empty_iff(s);
        assert(te.len() > 0);
        let x = te + seq!['\n', '\n', '\n'];
        assert(st2 == x);
        assert(x.drop_last() =~= te + seq!['\n', '\n']);
        assert((te + seq!['\n', '\n']).drop_last() =~= te + seq!['\n']);
        assert((te + seq!['\n']).drop_last() =~= te);
        assert(text::is_space('\n'));
        assert(text::trim_end(te) == te);
        assert(text::trim_end(te + seq!['\n']) == text::trim_end(te));
        assert(text::trim_end(te + seq!['\n', '\n']) == text::trim_end(te + seq!['\n']));
        assert(text::trim_end(x) == text::trim_end(te + seq!['\n', '\n']));
        assert(text::trim_end(x) == te);
        text::lemma_trim_empty_iff_all_space(x);
        assert(!text::is_space(x[te.len() - 1]));
        assert(text::trim(x).len() > 0);
    }
}

/// Stripping the artifact from a body it was embedded in gives back the
/// body's own text, up to the whitespace around it.
pub proof fn lemma_strip_recovers_body(body: Seq<char>, a: ArtifactView)
    requires
        !text::contains(stripped(body), ARTIFACT_MARKER_START@),
    ensures
        text::trim(stripped(embedded(body, a))) == text::trim(stripped(body)),
{
    lemma_stripped_embedded(body, a);
    let s = stripped(body);
    if text::trim(s).len() == 0 {
        assert(text::trim(Seq::<char>::empty()) =~= Seq::<char>::empty());
        assert(text::trim(s) =~= Seq::<char>::empty());
    } else {
        text::lemma_trim_empty_iff_all_space(s);
        text::lemma_trim_end_empty_iff(s);
        let w = seq!['\n', '\n', '\n'];
        assert(text::all_space(w)) by {
            assert(text::is_space('\n'));
        }
        text::lemma_trim_of_trim_end(s, w);
    }
}

/// A body that does not carry the start marker carries no artifact, and
/// stripping leaves it as it is.
pub proof fn lemma_no_marker_no_artifact(body: Seq<char>)
    requires
        !text::contains(body, ARTIFACT_MARKER_START@),
    ensures
        extracted(body) is None,
        stripped(body) == body,
{
    lemma_find_spec_occurs(body, ARTIFACT_MARKER_START@, 0);
    if let Some(i) = text::find_spec(body, ARTIFACT_MARKER_START@, 0) {
        assert(text::occurs_at(body, ARTIFACT_MARKER_START@, i));
    }
}
} // verus!
