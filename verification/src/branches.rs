//! Release lines: mapping a base branch to its release branch.
//!
//! A project maintaining `release/1.x` while `main` moves on has several
//! releases in flight at once. `branches` lists the base branches gh-ship
//! releases from, and `release_branch` is a template rendered once per
//! line, with `branch` (the base branch) and `match` (what a `*`
//! captured, or the whole branch for an exact entry) in context.

use vstd::prelude::*;

use crate::artifact::json::{self, Json};
use crate::artifact::model;
use crate::artifact::span::Span;
use crate::config::{self, Config};
use crate::render::{self, render_template, TemplateError, TemplateErrorView, TemplateTopic};
use crate::suggest;
use crate::text::{self, chars_of, concat3, owned, push_str, str_eq, string_of_range};

verus! {

/// A resolved release line.
#[derive(Debug, Clone, PartialEq, Eq)]
pub struct Line {
    /// The branch the Release PR targets.
    pub base: String,
    /// The branch the release is staged on.
    pub release: String,
    /// Index of the `branches` entry that matched; `None` when no entries
    /// are configured.
    pub entry: Option<usize>,
}

pub struct LineView {
    pub base: Seq<char>,
    pub release: Seq<char>,
    pub entry: Option<usize>,
}

impl View for Line {
    type V = LineView;

    open spec fn view(&self) -> LineView {
        LineView { base: self.base@, release: self.release@, entry: self.entry }
    }
}

/// Everything that can go wrong resolving a release line.
#[derive(Debug, Clone)]
pub enum BranchError {
    /// No entry of `branches` matches the base branch.
    NoMatch { base: String, help: String },
    /// `release_branch` renders the same for every line, and several
    /// entries use it.
    AmbiguousReleaseBranch { help: String, span: Span },
    /// `release_branch` does not render.
    Template(TemplateError),
    /// Two globs whose lines can stage on the same branch.
    CollidingGlobs { first: String, second: String, help: String, span: Span },
    /// An exact entry whose releases would be staged on a base branch.
    ReleaseIsBase { branch: String, help: String, span: Span },
}

pub enum BranchErrorView {
    NoMatch { base: Seq<char>, help: Seq<char> },
    AmbiguousReleaseBranch { help: Seq<char>, span: Span },
    Template(TemplateErrorView),
    CollidingGlobs { first: Seq<char>, second: Seq<char>, help: Seq<char>, span: Span },
    ReleaseIsBase { branch: Seq<char>, help: Seq<char>, span: Span },
}

impl View for BranchError {
    type V = BranchErrorView;

    open spec fn view(&self) -> BranchErrorView {
        match self {
            BranchError::NoMatch { base, help } => BranchErrorView::NoMatch { base: base@, help: help@ },
            BranchError::AmbiguousReleaseBranch { help, span } => BranchErrorView::AmbiguousReleaseBranch {
                help: help@,
                span: *span,
            },
            BranchError::Template(e) => BranchErrorView::Template(e@),
            BranchError::CollidingGlobs { first, second, help, span } => BranchErrorView::CollidingGlobs {
                first: first@,
                second: second@,
                help: help@,
                span: *span,
            },
            BranchError::ReleaseIsBase { branch, help, span } => BranchErrorView::ReleaseIsBase {
                branch: branch@,
                help: help@,
                span: *span,
            },
        }
    }
}

impl BranchError {
    /// The error's one-line summary.
    pub fn message(&self) -> (r: String)
        ensures
            r@ == match self@ {
                BranchErrorView::NoMatch { base, .. } => "no branch rule matches `"@ + base + "`"@,
                BranchErrorView::AmbiguousReleaseBranch { .. } => "`release_branch` is the same for every release line, so they would collide on one branch"@,
                BranchErrorView::Template(e) => "failed to render `"@ + e.field + "`: "@ + e.message,
                BranchErrorView::CollidingGlobs { first, second, .. } => "`"@ + first + "` and `"@ + second
                    + "` can capture the same text, so two release lines would stage on one branch"@,
                BranchErrorView::ReleaseIsBase { branch, .. } => "`"@ + branch
                    + "` would stage its releases on a base branch"@,
            },
    {
        match self {
            BranchError::NoMatch { base, .. } => concat3("no branch rule matches `", base.as_str(), "`"),
            BranchError::AmbiguousReleaseBranch { .. } => owned(
                "`release_branch` is the same for every release line, so they would collide on one branch",
            ),
            BranchError::Template(e) => {
                let mut out = concat3("failed to render `", e.field.as_str(), "`: ");
                push_str(&mut out, e.message.as_str());
                out
            },
            BranchError::CollidingGlobs { first, second, .. } => {
                let mut out = concat3("`", first.as_str(), "` and `");
                push_str(&mut out, second.as_str());
                push_str(&mut out, "` can capture the same text, so two release lines would stage on one branch");
                out
            },
            BranchError::ReleaseIsBase { branch, .. } => concat3(
                "`",
                branch.as_str(),
                "` would stage its releases on a base branch",
            ),
        }
    }
}

// --- Globs ---------------------------------------------------------------------------

/// Whether an entry contains a `*`.
pub open spec fn has_star(e: Seq<char>) -> bool {
    e.contains('*')
}

/// Whether an entry is a glob rather than an exact branch name.
pub fn is_pattern(entry: &str) -> (r: bool)
    ensures
        r == has_star(entry@),
{
    let cs = chars_of(entry);
    let mut i: usize = 0;
    while i < cs.len()
        invariant
            cs@ == entry@,
            i <= cs@.len(),
            forall|j: int| 0 <= j < i ==> cs@[j] != '*',
        decreases cs.len() - i,
    {
        if cs[i] == '*' {
            assert(entry@[i as int] == '*');
            return true;
        }
        i += 1;
    }
    false
}

/// The index of the first `*` of `p`.
pub open spec fn first_star(p: Seq<char>) -> Option<int> {
    text::find_spec(p, seq!['*'], 0)
}

/// The number of bytes of a text's UTF-8 encoding.
pub open spec fn byte_len(s: Seq<char>) -> int {
    vstd::utf8::encode_utf8(s).len() as int
}

/// What `input` captures for the `*` of `pattern`: the part between the
/// text before the first `*` and the text after it. The capture must not
/// be empty, so the input must be longer (in bytes) than the two put
/// together; `*` matches `/` too.
pub open spec fn glob_capture(pattern: Seq<char>, input: Seq<char>) -> Option<Seq<char>> {
    match first_star(pattern) {
        None => None,
        Some(k) => {
            let pre = pattern.take(k);
            let suf = pattern.skip(k + 1);
            if byte_len(input) <= byte_len(pre) + byte_len(suf) {
                None
            } else if text::is_prefix(pre, input) && text::is_suffix(suf, input) && pre.len() + suf.len() <= input.len() {
                Some(input.subrange(pre.len() as int, input.len() - suf.len()))
            } else {
                None
            }
        },
    }
}

/// Match `input` against a glob with one `*`; what the `*` captured.
pub fn glob_match(pattern: &str, input: &str) -> (r: Option<String>)
    ensures
        match glob_capture(pattern@, input@) {
            Some(c) => r matches Some(x) && x@ == c,
            None => r is None,
        },
{
    let ps = chars_of(pattern);
    let star = chars_of("*");
    proof {
        reveal_strlit("*");
        assert(star@ =~= seq!['*']);
    }
    let k = match text::find_index(ps.as_slice(), star.as_slice(), 0) {
        Some(k) => k,
        None => return None,
    };
    proof {
        lemma_find_in_bounds(ps@, seq!['*'], 0);
    }
    let n = ps.len();
    let pre = string_of_range(ps.as_slice(), 0, k);
    let suf = string_of_range(ps.as_slice(), k + 1, n);
    assert(pre@ =~= pattern@.take(k as int));
    assert(suf@ =~= pattern@.skip(k + 1));
    let pre_bytes = pre.as_str().as_bytes().len();
    let suf_bytes = suf.as_str().as_bytes().len();
    let in_bytes = input.as_bytes().len();
    if in_bytes <= pre_bytes || in_bytes - pre_bytes <= suf_bytes {
        return None;
    }
    let cs = chars_of(input);
    let pc = chars_of(pre.as_str());
    let sc = chars_of(suf.as_str());
    if pc.len() > cs.len() || sc.len() > cs.len() - pc.len() {
        return None;
    }
    if !text::starts_with(cs.as_slice(), pc.as_slice()) || !text::ends_with(cs.as_slice(), sc.as_slice()) {
        return None;
    }
    Some(string_of_range(cs.as_slice(), pc.len(), cs.len() - sc.len()))
}

proof fn lemma_find_in_bounds(s: Seq<char>, p: Seq<char>, from: int)
    ensures
        text::find_spec(s, p, from) matches Some(i) ==> from <= i && i + p.len() <= s.len() && text::occurs_at(s, p, i),
    decreases s.len() - from,
{
    if !(from < 0 || from + p.len() > s.len()) && !text::occurs_at(s, p, from) && from < s.len() {
        lemma_find_in_bounds(s, p, from + 1);
    }
}

// --- Resolution ----------------------------------------------------------------------

/// The first exact entry, at or after `i`, naming `base`.
pub open spec fn first_exact(entries: Seq<Seq<char>>, base: Seq<char>, i: int) -> Option<int>
    decreases entries.len() - i,
{
    if i < 0 || i >= entries.len() {
        None
    } else if !has_star(entries[i]) && entries[i] == base {
        Some(i)
    } else {
        first_exact(entries, base, i + 1)
    }
}

/// The first glob entry, at or after `i`, that matches `base`, and what
/// it captures.
pub open spec fn first_glob(entries: Seq<Seq<char>>, base: Seq<char>, i: int) -> Option<(int, Seq<char>)>
    decreases entries.len() - i,
{
    if i < 0 || i >= entries.len() {
        None
    } else if has_star(entries[i]) && glob_capture(entries[i], base) is Some {
        Some((i, glob_capture(entries[i], base)->Some_0))
    } else {
        first_glob(entries, base, i + 1)
    }
}

/// The entry that selects `base` and what `match` is for it: exact
/// entries first whatever their place, then globs in declaration order.
pub open spec fn selection(entries: Seq<Seq<char>>, base: Seq<char>) -> Option<(int, Seq<char>)> {
    match first_exact(entries, base, 0) {
        Some(i) => Some((i, base)),
        None => first_glob(entries, base, 0),
    }
}

/// An exact entry selects its branch wherever it is written: no pattern,
/// even one declared before it, takes its place.
pub proof fn lemma_exact_entry_wins(entries: Seq<Seq<char>>, base: Seq<char>, i: int)
    requires
        0 <= i < entries.len(),
        !has_star(entries[i]),
        entries[i] == base,
    ensures
        selection(entries, base) matches Some((k, c)) && c == base && k <= i && entries[k] == base && !has_star(entries[k]),
{
    lemma_first_exact_found(entries, base, 0, i);
}

proof fn lemma_first_exact_found(entries: Seq<Seq<char>>, base: Seq<char>, from: int, i: int)
    requires
        0 <= from <= i < entries.len(),
        !has_star(entries[i]),
        entries[i] == base,
    ensures
        first_exact(entries, base, from) matches Some(k) && from <= k <= i && entries[k] == base && !has_star(entries[k]),
    decreases i - from,
{
    if from < i && !(!has_star(entries[from]) && entries[from] == base) {
        lemma_first_exact_found(entries, base, from + 1, i);
    }
}

/// Without an exact entry, patterns are tried in the order they are
/// written: the first one that matches selects the line.
pub proof fn lemma_first_pattern_wins(entries: Seq<Seq<char>>, base: Seq<char>, i: int)
    requires
        0 <= i < entries.len(),
        has_star(entries[i]),
        glob_capture(entries[i], base) is Some,
        forall|j: int| 0 <= j < entries.len() ==> !(!has_star(#[trigger] entries[j]) && entries[j] == base),
    ensures
        selection(entries, base) matches Some((k, c)) && k <= i && has_star(entries[k])
            && glob_capture(entries[k], base) == Some(c)
            && forall|j: int| 0 <= j < k ==> !(has_star(#[trigger] entries[j]) && glob_capture(entries[j], base) is Some),
{
    lemma_no_exact(entries, base, 0);
    lemma_first_glob_found(entries, base, 0, i);
}

proof fn lemma_no_exact(entries: Seq<Seq<char>>, base: Seq<char>, from: int)
    requires
        0 <= from,
        forall|j: int| 0 <= j < entries.len() ==> !(!has_star(#[trigger] entries[j]) && entries[j] == base),
    ensures
        first_exact(entries, base, from) is None,
    decreases entries.len() - from,
{
    if from < entries.len() {
        lemma_no_exact(entries, base, from + 1);
    }
}

proof fn lemma_first_glob_found(entries: Seq<Seq<char>>, base: Seq<char>, from: int, i: int)
    requires
        0 <= from <= i < entries.len(),
        has_star(entries[i]),
        glob_capture(entries[i], base) is Some,
    ensures
        first_glob(entries, base, from) matches Some((k, c)) && from <= k <= i && has_star(entries[k])
            && glob_capture(entries[k], base) == Some(c)
            && forall|j: int| from <= j < k ==> !(has_star(#[trigger] entries[j]) && glob_capture(entries[j], base) is Some),
    decreases i - from,
{
    if from < i && !(has_star(entries[from]) && glob_capture(entries[from], base) is Some) {
        lemma_first_glob_found(entries, base, from + 1, i);
    }
}

/// The compact text of the `release_branch` context.
pub open spec fn branch_context(branch: Seq<char>, capture: Seq<char>) -> Seq<char> {
    seq!['{'] + json::quoted("branch"@) + seq![':'] + json::quoted(branch) + seq![','] + json::quoted("match"@)
        + seq![':'] + json::quoted(capture) + seq!['}']
}

/// A `release_branch` template rendered for one line.
pub open spec fn rendered_release(template: Seq<char>, branch: Seq<char>, capture: Seq<char>) -> Result<Seq<char>, TemplateErrorView> {
    render::template_outcome("release_branch"@, template, branch_context(branch, capture), TemplateTopic::Branch)
}

/// The top-level `release_branch` rendered for one line.
pub open spec fn release_branch_outcome(cfg: Config, branch: Seq<char>, capture: Seq<char>) -> Result<Seq<char>, TemplateErrorView> {
    rendered_release(cfg.settings.release_branch@, branch, capture)
}

/// The `release_branch` in force for the entry at `i` (its override, else
/// the top-level one) rendered for one of its lines.
pub open spec fn line_release_outcome(cfg: Config, i: int, branch: Seq<char>, capture: Seq<char>) -> Result<Seq<char>, TemplateErrorView> {
    rendered_release(config::template_for(cfg, i), branch, capture)
}

pub open spec fn ticked(s: Seq<char>) -> Seq<char> {
    "`"@ + s + "`"@
}

/// Entries between backticks, separated by `", "`.
pub open spec fn listed(entries: Seq<Seq<char>>) -> Seq<char>
    decreases entries.len(),
{
    if entries.len() == 0 {
        Seq::empty()
    } else if entries.len() == 1 {
        ticked(entries[0])
    } else {
        listed(entries.drop_last()) + ", "@ + ticked(entries.last())
    }
}

/// What to do when no entry matches `base`.
pub open spec fn no_match_help_of(entries: Seq<Seq<char>>, base: Seq<char>) -> Seq<char> {
    let help = "`branches` lists "@ + listed(entries) + ". Add `"@ + base
        + "` to it, or pass `--base` to release from a branch that is listed"@;
    match suggest::suggestion(base, entries) {
        Some(c) => help + "\ndid you mean `"@ + c + "`?"@,
        None => help,
    }
}

pub open spec fn entries_of(cfg: Config) -> Seq<Seq<char>> {
    model::strings_view(cfg.settings.branches@)
}

pub open spec fn line_outcome(r: Result<Line, BranchError>) -> Result<LineView, BranchErrorView> {
    match r {
        Ok(l) => Ok(l@),
        Err(e) => Err(e@),
    }
}

/// The release line of `base` under the configured `branches`.
pub open spec fn resolved(cfg: Config, base: Seq<char>) -> Result<LineView, BranchErrorView> {
    match selection(entries_of(cfg), base) {
        None => Err(BranchErrorView::NoMatch { base, help: no_match_help_of(entries_of(cfg), base) }),
        Some((i, capture)) => match line_release_outcome(cfg, i, base, capture) {
            Ok(release) => Ok(LineView { base, release, entry: Some(i as usize) }),
            Err(e) => Err(BranchErrorView::Template(e)),
        },
    }
}

fn render_release_branch(template: &str, branch: &str, capture: &str) -> (r: Result<String, BranchError>)
    ensures
        match rendered_release(template@, branch@, capture@) {
            Ok(s) => r matches Ok(x) && x@ == s,
            Err(e) => r matches Err(x) && x@ == BranchErrorView::Template(e),
        },
{
    let members: Vec<(String, Json)> = vec![
        (owned("branch"), Json::Str(owned(branch))),
        (owned("match"), Json::Str(owned(capture))),
    ];
    let context = Json::Object(members);
    proof {
        let m = members@;
        assert(m.drop_last().len() == 1);
        assert(m.drop_last()[0] == m[0]);
        assert(m[0].0@ == "branch"@);
        assert(m[1].0@ == "match"@);
        assert(json::json_text(m[0].1) == json::quoted(branch@));
        assert(json::json_text(m[1].1) == json::quoted(capture@));
        assert(json::members_text(m.drop_last()) == json::quoted("branch"@) + seq![':'] + json::quoted(branch@));
        assert(json::json_text(context) =~= branch_context(branch@, capture@));
    }
    match render_template("release_branch", template, &context, TemplateTopic::Branch) {
        Ok(s) => Ok(s),
        Err(e) => Err(BranchError::Template(e)),
    }
}

fn no_match_help(entries: &[String], base: &str) -> (r: String)
    ensures
        r@ == no_match_help_of(model::strings_view(entries@), base@),
{
    let ghost es = model::strings_view(entries@);
    let mut list = String::new();
    let mut i: usize = 0;
    assert(es.take(0) =~= Seq::<Seq<char>>::empty());
    while i < entries.len()
        invariant
            i <= entries@.len(),
            es == model::strings_view(entries@),
            list@ == listed(es.take(i as int)),
        decreases entries.len() - i,
    {
        assert(es.take(i + 1).drop_last() =~= es.take(i as int));
        if i > 0 {
            push_str(&mut list, ", ");
        }
        push_str(&mut list, "`");
        push_str(&mut list, entries[i].as_str());
        push_str(&mut list, "`");
        i += 1;
    }
    assert(es.take(i as int) =~= es);
    let mut help = concat3("`branches` lists ", list.as_str(), ". Add `");
    push_str(&mut help, base);
    push_str(&mut help, "` to it, or pass `--base` to release from a branch that is listed");
    let mut names: Vec<&str> = Vec::new();
    let mut j: usize = 0;
    while j < entries.len()
        invariant
            j <= entries@.len(),
            es == model::strings_view(entries@),
            suggest::str_views(names@) == es.take(j as int),
        decreases entries.len() - j,
    {
        let ghost before = suggest::str_views(names@);
        names.push(entries[j].as_str());
        assert(suggest::str_views(names@) =~= before.push(es[j as int]));
        assert(es.take(j + 1) =~= es.take(j as int).push(es[j as int]));
        j += 1;
    }
    assert(es.take(j as int) =~= es);
    match suggest::suggest(base, names.as_slice()) {
        Some(c) => {
            push_str(&mut help, "\ndid you mean `");
            push_str(&mut help, c.as_str());
            push_str(&mut help, "`?");
            help
        },
        None => help,
    }
}

fn find_exact(entries: &[String], base: &str) -> (r: Option<usize>)
    ensures
        match first_exact(model::strings_view(entries@), base@, 0) {
            Some(i) => r matches Some(j) && j as int == i,
            None => r is None,
        },
{
    let ghost es = model::strings_view(entries@);
    let mut i: usize = 0;
    while i < entries.len()
        invariant
            i <= entries@.len(),
            es == model::strings_view(entries@),
            first_exact(es, base@, 0) == first_exact(es, base@, i as int),
        decreases entries.len() - i,
    {
        assert(es[i as int] == entries@[i as int]@);
        if !is_pattern(entries[i].as_str()) && str_eq(entries[i].as_str(), base) {
            return Some(i);
        }
        i += 1;
    }
    None
}

fn find_glob(entries: &[String], base: &str) -> (r: Option<(usize, String)>)
    ensures
        match first_glob(model::strings_view(entries@), base@, 0) {
            Some((i, c)) => r matches Some((j, x)) && j as int == i && x@ == c,
            None => r is None,
        },
{
    let ghost es = model::strings_view(entries@);
    let mut i: usize = 0;
    while i < entries.len()
        invariant
            i <= entries@.len(),
            es == model::strings_view(entries@),
            first_glob(es, base@, 0) == first_glob(es, base@, i as int),
        decreases entries.len() - i,
    {
        assert(es[i as int] == entries@[i as int]@);
        if is_pattern(entries[i].as_str()) {
            match glob_match(entries[i].as_str(), base) {
                Some(c) => return Some((i, c)),
                None => {},
            }
        }
        i += 1;
    }
    None
}

/// Resolve `base` against the configured release lines.
///
/// Exact entries are tried before globs, whatever their order in the
/// file: writing `main` beside `*` means "main is special". Globs are
/// then tried in declaration order, first match winning.
pub fn resolve(config: &Config, base: &str) -> (r: Result<Line, BranchError>)
    ensures
        line_outcome(r) == resolved(*config, base@),
{
    let entries = config.branches();
    let ghost es = model::strings_view(entries@);
    assert(es == entries_of(*config));
    let found = match find_exact(entries, base) {
        Some(i) => Some((i, owned(base))),
        None => find_glob(entries, base),
    };
    let (index, capture) = match found {
        Some(t) => t,
        None => return Err(BranchError::NoMatch { base: owned(base), help: no_match_help(entries, base) }),
    };
    let template = config.release_branch_template_for(Some(index));
    let release = match render_release_branch(template, base, capture.as_str()) {
        Ok(s) => s,
        Err(e) => return Err(e),
    };
    Ok(Line { base: owned(base), release, entry: Some(index) })
}

/// An entry's own `release_branch` decides where its lines stage; a line
/// whose entry has none stages where the top-level template says.
pub proof fn lemma_override_decides(cfg: Config, base: Seq<char>, i: int, capture: Seq<char>)
    requires
        selection(entries_of(cfg), base) == Some((i, capture)),
    ensures
        config::overridden(cfg, i) ==> (resolved(cfg, base) matches Ok(l) ==> Ok::<Seq<char>, TemplateErrorView>(l.release)
            == rendered_release(cfg.settings.overrides@[i]->0@, base, capture)),
        !config::overridden(cfg, i) ==> (resolved(cfg, base) matches Ok(l) ==> Ok::<Seq<char>, TemplateErrorView>(l.release)
            == release_branch_outcome(cfg, base, capture)),
        resolved(cfg, base) is Err <==> rendered_release(config::template_for(cfg, i), base, capture) is Err,
{
}

/// The `branches` entry a resolved line came from.
pub open spec fn rule_of(cfg: Config, entry: Option<usize>) -> Option<Seq<char>> {
    match entry {
        Some(i) => if (i as int) < entries_of(cfg).len() {
            Some(entries_of(cfg)[i as int])
        } else {
            None
        },
        None => None,
    }
}

/// The `branches` entry that selected `line`; `None` for the single line
/// of a config without `branches`.
pub fn branch_rule<'a>(config: &'a Config, line: &Line) -> (r: Option<&'a str>)
    ensures
        match rule_of(*config, line.entry) {
            Some(e) => r matches Some(x) && x@ == e,
            None => r is None,
        },
{
    let entries = config.branches();
    let ghost es = model::strings_view(entries@);
    assert(es == entries_of(*config));
    match line.entry {
        Some(i) => if i < entries.len() {
            assert(es[i as int] == entries@[i as int]@);
            Some(entries[i].as_str())
        } else {
            None
        },
        None => None,
    }
}

/// The single release line of a config without `branches`: `match` is the
/// branch itself, so one template works either way.
pub fn single(config: &Config, base: &str) -> (r: Result<Line, BranchError>)
    ensures
        line_outcome(r) == match release_branch_outcome(*config, base@, base@) {
            Ok(release) => Ok(LineView { base: base@, release, entry: None }),
            Err(e) => Err(BranchErrorView::Template(e)),
        },
{
    let release = match render_release_branch(config.release_branch_template(), base, base) {
        Ok(s) => s,
        Err(e) => return Err(e),
    };
    Ok(Line { base: owned(base), release, entry: None })
}

/// The help for a `release_branch` that does not vary per line.
pub open spec fn ambiguous_help(template: Seq<char>) -> Seq<char> {
    "`"@ + template
        + "` renders the same for every base branch. With several release lines it must vary — use `{{ match }}` (what a `*` captured, or the branch itself for an exact entry), e.g. `next/{{ match }}`"@
}

/// The verdict of the template checks on a configuration: it renders, and
/// with several lines it varies.
pub open spec fn template_check(cfg: Config) -> Result<(), BranchErrorView> {
    match release_branch_outcome(cfg, "probe-a"@, "probe-a"@) {
        Err(e) => Err(BranchErrorView::Template(e)),
        Ok(probe) => if inheriting(cfg, cfg.settings.branches@.len() as int) >= 2 {
            match release_branch_outcome(cfg, "probe-b"@, "probe-b"@) {
                Err(e) => Err(BranchErrorView::Template(e)),
                Ok(other) => if probe == other {
                    Err(
                        BranchErrorView::AmbiguousReleaseBranch {
                            help: ambiguous_help(cfg.settings.release_branch@),
                            span: config::span_in(cfg.source.text@, "release_branch:"@),
                        },
                    )
                } else {
                    Ok(())
                },
            }
        } else {
            Ok(())
        },
    }
}

/// How many of the first `n` entries use the top-level `release_branch`.
pub open spec fn inheriting(cfg: Config, n: int) -> int
    decreases n,
{
    if n <= 0 {
        0
    } else {
        inheriting(cfg, n - 1) + if config::overridden(cfg, n - 1) {
            0int
        } else {
            1int
        }
    }
}

fn inheriting_lines(config: &Config) -> (r: usize)
    ensures
        r == inheriting(*config, config.settings.branches@.len() as int),
{
    let n = config.branches().len();
    let mut k: usize = 0;
    let mut i: usize = 0;
    while i < n
        invariant
            i <= n,
            n == config.settings.branches@.len(),
            k == inheriting(*config, i as int),
            k <= i,
        decreases n - i,
    {
        if !config.overrides_template(i) {
            k += 1;
        }
        i += 1;
    }
    k
}

fn check_template(config: &Config) -> (r: Result<(), BranchError>)
    ensures
        match template_check(*config) {
            Ok(()) => r is Ok,
            Err(e) => r matches Err(x) && x@ == e,
        },
{
    let probe = render_release_branch(config.release_branch_template(), "probe-a", "probe-a")?;
    if inheriting_lines(config) >= 2 {
        let other = render_release_branch(config.release_branch_template(), "probe-b", "probe-b")?;
        if str_eq(probe.as_str(), other.as_str()) {
            let mut help = crate::text::concat2("`", config.release_branch_template());
            push_str(
                &mut help,
                "` renders the same for every base branch. With several release lines it must vary — use `{{ match }}` (what a `*` captured, or the branch itself for an exact entry), e.g. `next/{{ match }}`",
            );
            return Err(BranchError::AmbiguousReleaseBranch { help, span: config.source.locate("release_branch:") });
        }
    }
    Ok(())
}

/// The text a glob entry names when its `*` captures `c`.
pub open spec fn glob_branch(p: Seq<char>, c: Seq<char>) -> Seq<char> {
    match first_star(p) {
        Some(k) => p.take(k) + c + p.skip(k + 1),
        None => p,
    }
}

/// What the entry `e` at `i` stages on when probed, under its own
/// template: an exact entry with itself, a glob with `probe` captured.
pub open spec fn probe_render(cfg: Config, i: int, e: Seq<char>) -> Result<Seq<char>, TemplateErrorView> {
    if has_star(e) {
        line_release_outcome(cfg, i, glob_branch(e, "probe"@), "probe"@)
    } else {
        line_release_outcome(cfg, i, e, e)
    }
}

/// Each entry's probe rendering, in order; the first that fails ends it.
pub open spec fn probe_renders(cfg: Config, es: Seq<Seq<char>>) -> Result<Seq<Seq<char>>, TemplateErrorView>
    decreases es.len(),
{
    if es.len() == 0 {
        Ok(Seq::empty())
    } else {
        match probe_renders(cfg, es.drop_last()) {
            Err(e) => Err(e),
            Ok(rs) => match probe_render(cfg, es.len() - 1, es.last()) {
                Ok(r) => Ok(rs.push(r)),
                Err(e) => Err(e),
            },
        }
    }
}

/// The first glob among the first `m` entries whose rendering is `r`.
pub open spec fn first_glob_rendering(es: Seq<Seq<char>>, rs: Seq<Seq<char>>, m: int, r: Seq<char>) -> Option<int>
    decreases m,
{
    if m <= 0 {
        None
    } else {
        match first_glob_rendering(es, rs, m - 1, r) {
            Some(i) => Some(i),
            None => if has_star(es[m - 1]) && rs[m - 1] == r {
                Some(m - 1)
            } else {
                None
            },
        }
    }
}

/// The first pair of globs among the first `n` entries that render the
/// same: the later one as early as possible, then the earlier one.
pub open spec fn glob_clash(es: Seq<Seq<char>>, rs: Seq<Seq<char>>, n: int) -> Option<(int, int)>
    decreases n,
{
    if n <= 0 {
        None
    } else {
        match glob_clash(es, rs, n - 1) {
            Some(p) => Some(p),
            None => if has_star(es[n - 1]) {
                match first_glob_rendering(es, rs, n - 1, rs[n - 1]) {
                    Some(i) => Some((i, n - 1)),
                    None => None,
                }
            } else {
                None
            },
        }
    }
}

/// The first exact entry among the first `n` whose rendering is itself an
/// entry.
pub open spec fn self_base(es: Seq<Seq<char>>, rs: Seq<Seq<char>>, n: int) -> Option<int>
    decreases n,
{
    if n <= 0 {
        None
    } else {
        match self_base(es, rs, n - 1) {
            Some(k) => Some(k),
            None => if !has_star(es[n - 1]) && es.contains(rs[n - 1]) {
                Some(n - 1)
            } else {
                None
            },
        }
    }
}

pub open spec fn colliding_help() -> Seq<char> {
    "make `release_branch` tell the lines apart, e.g. with `{{ branch }}`, or drop one of the globs"@
}

pub open spec fn release_is_base_help() -> Seq<char> {
    "a Release PR from a branch into itself is not a release: give `release_branch` a value no base branch has, e.g. `next/{{ match }}`"@
}

/// The checks on the lines themselves: no two globs stage on one branch,
/// and no exact entry stages on a base branch.
pub open spec fn line_check(cfg: Config) -> Result<(), BranchErrorView> {
    let es = entries_of(cfg);
    if es.len() == 0 {
        Ok(())
    } else {
        match probe_renders(cfg, es) {
            Err(e) => Err(BranchErrorView::Template(e)),
            Ok(rs) => match glob_clash(es, rs, es.len() as int) {
                Some((i, j)) => Err(
                    BranchErrorView::CollidingGlobs {
                        first: es[i],
                        second: es[j],
                        help: colliding_help(),
                        span: config::span_in(cfg.source.text@, "release_branch:"@),
                    },
                ),
                None => match self_base(es, rs, es.len() as int) {
                    Some(k) => Err(
                        BranchErrorView::ReleaseIsBase {
                            branch: es[k],
                            help: release_is_base_help(),
                            span: config::span_in(cfg.source.text@, "release_branch:"@),
                        },
                    ),
                    None => Ok(()),
                },
            },
        }
    }
}

/// The verdict of every release-line check on a configuration.
pub open spec fn branch_check(cfg: Config) -> Result<(), BranchErrorView> {
    match template_check(cfg) {
        Err(e) => Err(e),
        Ok(()) => line_check(cfg),
    }
}

proof fn lemma_render_error_persists(cfg: Config, es: Seq<Seq<char>>, i: int)
    requires
        0 <= i <= es.len(),
        probe_renders(cfg, es.take(i)) is Err,
    ensures
        probe_renders(cfg, es) == probe_renders(cfg, es.take(i)),
    decreases es.len(),
{
    if es.len() == i {
        assert(es.take(i) =~= es);
    } else {
        assert(es.drop_last().take(i) =~= es.take(i));
        lemma_render_error_persists(cfg, es.drop_last(), i);
    }
}

proof fn lemma_first_rendering_persists(es: Seq<Seq<char>>, rs: Seq<Seq<char>>, m: int, n: int, r: Seq<char>)
    requires
        0 <= m <= n,
        first_glob_rendering(es, rs, m, r) is Some,
    ensures
        first_glob_rendering(es, rs, n, r) == first_glob_rendering(es, rs, m, r),
    decreases n - m,
{
    if n > m {
        lemma_first_rendering_persists(es, rs, m, n - 1, r);
    }
}

proof fn lemma_clash_persists(es: Seq<Seq<char>>, rs: Seq<Seq<char>>, m: int, n: int)
    requires
        0 <= m <= n,
        glob_clash(es, rs, m) is Some,
    ensures
        glob_clash(es, rs, n) == glob_clash(es, rs, m),
    decreases n - m,
{
    if n > m {
        lemma_clash_persists(es, rs, m, n - 1);
    }
}

proof fn lemma_self_base_persists(es: Seq<Seq<char>>, rs: Seq<Seq<char>>, m: int, n: int)
    requires
        0 <= m <= n,
        self_base(es, rs, m) is Some,
    ensures
        self_base(es, rs, n) == self_base(es, rs, m),
    decreases n - m,
{
    if n > m {
        lemma_self_base_persists(es, rs, m, n - 1);
    }
}

/// The branch a glob names when its `*` captures `capture`.
fn glob_example(pattern: &str, capture: &str) -> (r: String)
    ensures
        r@ == glob_branch(pattern@, capture@),
{
    let ps = chars_of(pattern);
    let star = chars_of("*");
    proof {
        reveal_strlit("*");
        assert(star@ =~= seq!['*']);
    }
    match text::find_index(ps.as_slice(), star.as_slice(), 0) {
        Some(k) => {
            proof {
                lemma_find_in_bounds(ps@, seq!['*'], 0);
            }
            let n = ps.len();
            assert(k + 1 <= n);
            let mut out = string_of_range(ps.as_slice(), 0, k);
            push_str(&mut out, capture);
            let rest = string_of_range(ps.as_slice(), k + 1, n);
            push_str(&mut out, rest.as_str());
            assert(out@ =~= glob_branch(pattern@, capture@));
            out
        },
        None => owned(pattern),
    }
}

fn probe_line(config: &Config, i: usize, e: &str) -> (r: Result<String, BranchError>)
    ensures
        match probe_render(*config, i as int, e@) {
            Ok(s) => r matches Ok(x) && x@ == s,
            Err(t) => r matches Err(x) && x@ == BranchErrorView::Template(t),
        },
{
    proof {
        reveal_strlit("probe");
    }
    let template = config.release_branch_template_for(Some(i));
    if is_pattern(e) {
        let b = glob_example(e, "probe");
        render_release_branch(template, b.as_str(), "probe")
    } else {
        render_release_branch(template, e, e)
    }
}

fn listed_entry(entries: &[String], r: &str) -> (found: bool)
    ensures
        found == model::strings_view(entries@).contains(r@),
{
    let mut i: usize = 0;
    while i < entries.len()
        invariant
            i <= entries@.len(),
            forall|k: int| 0 <= k < i ==> model::strings_view(entries@)[k] != r@,
        decreases entries.len() - i,
    {
        if str_eq(entries[i].as_str(), r) {
            assert(model::strings_view(entries@)[i as int] == r@);
            return true;
        }
        i += 1;
    }
    false
}

fn check_lines(config: &Config) -> (r: Result<(), BranchError>)
    ensures
        match line_check(*config) {
            Ok(()) => r is Ok,
            Err(e) => r matches Err(x) && x@ == e,
        },
{
    let entries = config.branches();
    let ghost es = entries_of(*config);
    assert(es == model::strings_view(entries@));
    let n = entries.len();
    if n == 0 {
        return Ok(());
    }
    // Every line's probe rendering.
    let mut rs: Vec<String> = Vec::new();
    let mut i: usize = 0;
    assert(es.take(0) =~= Seq::<Seq<char>>::empty());
    assert(model::strings_view(rs@) =~= Seq::<Seq<char>>::empty());
    while i < n
        invariant
            n == entries@.len(),
            i <= n,
            es == model::strings_view(entries@),
            es == entries_of(*config),
            probe_renders(*config, es.take(i as int)) == Ok::<Seq<Seq<char>>, TemplateErrorView>(model::strings_view(rs@)),
            rs@.len() == i,
        decreases n - i,
    {
        assert(es.take(i + 1).drop_last() =~= es.take(i as int));
        assert(es.take(i + 1).last() == entries@[i as int]@);
        let r = match probe_line(config, i, entries[i].as_str()) {
            Ok(r) => r,
            Err(x) => {
                proof {
                    lemma_render_error_persists(*config, es, i + 1);
                }
                return Err(x);
            },
        };
        let ghost before = model::strings_view(rs@);
        let ghost rr = r@;
        rs.push(r);
        assert(model::strings_view(rs@) =~= before.push(rr));
        i += 1;
    }
    assert(es.take(n as int) =~= es);
    let ghost rv = model::strings_view(rs@);
    assert(probe_renders(*config, es) == Ok::<Seq<Seq<char>>, TemplateErrorView>(rv));
    // Two globs that stage on one branch.
    let mut j: usize = 0;
    while j < n
        invariant
            n == entries@.len(),
            n == rs@.len(),
            j <= n,
            es == model::strings_view(entries@),
            rv == model::strings_view(rs@),
            glob_clash(es, rv, j as int) is None,
            es == entries_of(*config),
            probe_renders(*config, es) == Ok::<Seq<Seq<char>>, TemplateErrorView>(rv),
        decreases n - j,
    {
        if is_pattern(entries[j].as_str()) {
            let mut k: usize = 0;
            while k < j
                invariant
                    j < n,
                    n == entries@.len(),
                    n == rs@.len(),
                    k <= j,
                    es == model::strings_view(entries@),
                    rv == model::strings_view(rs@),
                    glob_clash(es, rv, j as int) is None,
                    has_star(es[j as int]),
                    first_glob_rendering(es, rv, k as int, rv[j as int]) is None,
                    es == entries_of(*config),
                    probe_renders(*config, es) == Ok::<Seq<Seq<char>>, TemplateErrorView>(rv),
                decreases j - k,
            {
                if is_pattern(entries[k].as_str()) && str_eq(rs[k].as_str(), rs[j].as_str()) {
                    proof {
                        assert(first_glob_rendering(es, rv, k + 1, rv[j as int]) == Some(k as int));
                        lemma_first_rendering_persists(es, rv, k + 1, j as int, rv[j as int]);
                        assert(glob_clash(es, rv, j + 1) == Some((k as int, j as int)));
                        lemma_clash_persists(es, rv, j + 1, n as int);
                    }
                    return Err(BranchError::CollidingGlobs {
                        first: owned(entries[k].as_str()),
                        second: owned(entries[j].as_str()),
                        help: owned(
                            "make `release_branch` tell the lines apart, e.g. with `{{ branch }}`, or drop one of the globs",
                        ),
                        span: config.source.locate("release_branch:"),
                    });
                }
                k += 1;
            }
        }
        j += 1;
    }
    // An exact entry that stages on a base branch.
    let mut k: usize = 0;
    while k < n
        invariant
            n == entries@.len(),
            n == rs@.len(),
            k <= n,
            es == model::strings_view(entries@),
            rv == model::strings_view(rs@),
            glob_clash(es, rv, n as int) is None,
            self_base(es, rv, k as int) is None,
            es == entries_of(*config),
            probe_renders(*config, es) == Ok::<Seq<Seq<char>>, TemplateErrorView>(rv),
        decreases n - k,
    {
        if !is_pattern(entries[k].as_str()) && listed_entry(entries, rs[k].as_str()) {
            proof {
                assert(self_base(es, rv, k + 1) == Some(k as int));
                lemma_self_base_persists(es, rv, k + 1, n as int);
            }
            return Err(BranchError::ReleaseIsBase {
                branch: owned(entries[k].as_str()),
                help: owned(
                    "a Release PR from a branch into itself is not a release: give `release_branch` a value no base branch has, e.g. `next/{{ match }}`",
                ),
                span: config.source.locate("release_branch:"),
            });
        }
        k += 1;
    }
    Ok(())
}

/// Config checks that need the template engine: `release_branch` must
/// render; when two or more entries use it (have no override of their
/// own) it must render differently per line; no
/// two globs may stage on one branch; and no line may stage on a base
/// branch.
pub fn check(config: &Config) -> (r: Result<(), BranchError>)
    ensures
        match branch_check(*config) {
            Ok(()) => r is Ok,
            Err(e) => r matches Err(x) && x@ == e,
        },
{
    check_template(config)?;
    check_lines(config)
}

/// The diagnostic code of each kind of [`BranchError`].
pub open spec fn branch_code(e: BranchError) -> Seq<char> {
    match e {
        BranchError::NoMatch { .. } => "ship::branches::no_match"@,
        BranchError::AmbiguousReleaseBranch { .. } => "ship::branches::constant_glob_release_branch"@,
        BranchError::Template(_) => "ship::template"@,
        BranchError::CollidingGlobs { .. } => "ship::branches::colliding_globs"@,
        BranchError::ReleaseIsBase { .. } => "ship::branches::release_branch_is_base_branch"@,
    }
}

impl BranchError {
    /// The diagnostic code that names this kind of error.
    pub fn code(&self) -> (r: &'static str)
        ensures
            r@ == branch_code(*self),
    {
        match self {
            BranchError::NoMatch { .. } => "ship::branches::no_match",
            BranchError::AmbiguousReleaseBranch { .. } => "ship::branches::constant_glob_release_branch",
            BranchError::Template(_) => "ship::template",
            BranchError::CollidingGlobs { .. } => "ship::branches::colliding_globs",
            BranchError::ReleaseIsBase { .. } => "ship::branches::release_branch_is_base_branch",
        }
    }
}

/// The help each branch error carries.
pub open spec fn branch_help(e: BranchError) -> Seq<char> {
    match e {
        BranchError::NoMatch { help, .. } => help@,
        BranchError::AmbiguousReleaseBranch { help, .. } => help@,
        BranchError::Template(t) => t.help@,
        BranchError::CollidingGlobs { help, .. } => help@,
        BranchError::ReleaseIsBase { help, .. } => help@,
    }
}

impl BranchError {
    /// What to do about the error.
    pub fn help(&self) -> (r: String)
        ensures
            r@ == branch_help(*self),
    {
        match self {
            BranchError::NoMatch { help, .. } => owned(help.as_str()),
            BranchError::AmbiguousReleaseBranch { help, .. } => owned(help.as_str()),
            BranchError::Template(t) => owned(t.help.as_str()),
            BranchError::CollidingGlobs { help, .. } => owned(help.as_str()),
            BranchError::ReleaseIsBase { help, .. } => owned(help.as_str()),
        }
    }

    /// Where in the configuration file the error points, and its label:
    /// the `release_branch` that does not tell the lines apart.
    pub fn label(&self) -> (r: Option<(Span, &'static str)>)
        ensures
            match *self {
                BranchError::AmbiguousReleaseBranch { span, .. } => r matches Some((x, m)) && x == span && m@
                    == "does not vary per line"@,
                BranchError::CollidingGlobs { span, .. } => r matches Some((x, m)) && x == span && m@
                    == "renders the same for both"@,
                BranchError::ReleaseIsBase { span, .. } => r matches Some((x, m)) && x == span && m@
                    == "renders a base branch"@,
                _ => r is None,
            },
    {
        match self {
            BranchError::AmbiguousReleaseBranch { span, .. } => Some((*span, "does not vary per line")),
            BranchError::CollidingGlobs { span, .. } => Some((*span, "renders the same for both")),
            BranchError::ReleaseIsBase { span, .. } => Some((*span, "renders a base branch")),
            _ => None,
        }
    }
}

} // verus!
