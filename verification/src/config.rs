//! Configuration: `.github/ship.yml`.
//!
//! Convention over configuration: the only required field is
//! `workflows.prepare`. Everything else has a default, and a repository
//! with a two-line config is a working gh-ship setup.
//!
//! The YAML text is read by `serde_norway`; this module holds the model,
//! turns a reader's error into a diagnostic, and runs the structural
//! checks that a deserializer cannot express. The raw text is kept beside
//! the model so that diagnostics can point at the offending line.

use vstd::prelude::*;

use crate::artifact::codec;
use crate::artifact::span::Span;
use crate::suggest::{self, span_of_substring};
use crate::text::{self, concat2, concat3, count_of, is_blank, owned, str_contains, str_eq};

verus! {

/// The config schema version this build understands.
pub const CONFIG_VERSION: u32 = 1;

/// Default branch used to stage a release.
pub const DEFAULT_RELEASE_BRANCH: &'static str = "release/next";

/// Default Release PR title template.
pub const DEFAULT_PR_TITLE: &'static str = "Release {{ version }}";

/// The raw configuration text and its origin, kept for diagnostics.
#[derive(Debug, Clone, Default)]
pub struct Source {
    pub name: String,
    pub text: String,
}

impl Source {
    /// The span of the first occurrence of `needle` in the text; empty at
    /// offset 0 when it does not occur.
    pub fn locate(&self, needle: &str) -> (r: Span)
        ensures
            r == suggest::substring_span(
                vstd::utf8::encode_utf8(self.text@),
                vstd::utf8::encode_utf8(needle@),
            ),
    {
        span_of_substring(self.text.as_str(), needle)
    }
}

/// Workflows gh-ship dispatches. They must declare `on: workflow_dispatch`.
#[derive(Debug, Clone, PartialEq)]
pub struct Workflows {
    /// Bumps the version, writes the changelog, commits, pushes, and
    /// uploads `ship.release.json`.
    pub prepare: String,
    /// Run after the Release PR is merged and the draft release exists.
    pub publish: Option<String>,
}

/// Release PR rendering.
#[derive(Debug, Clone, PartialEq)]
pub struct PullRequestConfig {
    /// MiniJinja template for the PR title.
    pub title: String,
    /// Markdown prepended to the release notes.
    pub header: Option<String>,
    /// Markdown appended after the release notes.
    pub footer: Option<String>,
    /// Labels applied to the Release PR.
    pub labels: Vec<String>,
    /// Reuse the existing Release PR rather than opening a new one.
    pub reuse: bool,
}

/// GitHub Release behaviour.
#[derive(Debug, Clone, PartialEq)]
pub struct ReleaseConfig {
    /// Create the release as a draft first, then undraft after the publish
    /// workflow succeeds.
    pub draft: bool,
}

/// The configuration model.
#[derive(Debug, Clone, PartialEq)]
pub struct Settings {
    /// Config schema version. Must be [`CONFIG_VERSION`].
    pub version: u32,
    /// Branch on which the release is staged: a template rendered per
    /// release line, with `branch` and `match` in context.
    pub release_branch: String,
    /// The base branches gh-ship releases from, one release line each; an
    /// entry containing `*` is a glob. Empty means the repository default.
    pub branches: Vec<String>,
    /// Per-entry `release_branch` overrides, by position in `branches`;
    /// an entry without one (or beyond the list) uses the top-level one.
    pub overrides: Vec<Option<String>>,
    pub workflows: Workflows,
    pub pull_request: PullRequestConfig,
    pub release: ReleaseConfig,
}

/// Whether the entry at `i` has its own `release_branch`.
pub open spec fn overridden(cfg: Config, i: int) -> bool {
    0 <= i < cfg.settings.overrides@.len() && cfg.settings.overrides@[i] is Some
}

/// The `release_branch` template in force for the entry at `i`.
pub open spec fn template_for(cfg: Config, i: int) -> Seq<char> {
    if overridden(cfg, i) {
        cfg.settings.overrides@[i]->0@
    } else {
        cfg.settings.release_branch@
    }
}

/// Parsed configuration, plus the source it came from.
#[derive(Debug, Clone)]
pub struct Config {
    pub settings: Settings,
    pub source: Source,
}

/// The default `release_branch`.
pub fn default_release_branch() -> (r: String)
    ensures
        r@ == DEFAULT_RELEASE_BRANCH@,
{
    owned(DEFAULT_RELEASE_BRANCH)
}

impl Default for PullRequestConfig {
    /// The defaults: the standard title, no header, footer or labels, and
    /// reuse of the open Release PR.
    fn default() -> (r: PullRequestConfig)
        ensures
            r.title@ == DEFAULT_PR_TITLE@,
            r.header is None,
            r.footer is None,
            r.labels@.len() == 0,
            r.reuse,
    {
        PullRequestConfig {
            title: owned(DEFAULT_PR_TITLE),
            header: None,
            footer: None,
            labels: Vec::new(),
            reuse: true,
        }
    }
}

impl Default for ReleaseConfig {
    /// Draft first, by default.
    fn default() -> (r: ReleaseConfig)
        ensures
            r.draft,
    {
        ReleaseConfig { draft: true }
    }
}

/// Errors raised while loading configuration.
#[derive(Debug, Clone)]
pub enum ConfigError {
    /// There is no file at `path`.
    Missing { path: String },
    /// The file could not be read; `message` is the system's reason.
    Io { path: String, message: String },
    /// The YAML reader refused the text.
    Parse { name: String, message: String, span: Span, help: Option<String> },
    UnsupportedVersion { found: u32, span: Span },
    EmptyField { field: String, span: Span, help: Option<String> },
    RemovedField { field: String, help: String, span: Span },
    BranchPattern { pattern: String, reason: String, help: String, span: Span },
    DuplicateBranch { entry: String, span: Span },
}

/// A configuration error as plain values.
pub enum ConfigErrorView {
    Missing { path: Seq<char> },
    Io { path: Seq<char>, message: Seq<char> },
    Parse { name: Seq<char>, message: Seq<char>, span: Span, help: Option<Seq<char>> },
    UnsupportedVersion { found: u32, span: Span },
    EmptyField { field: Seq<char>, span: Span, help: Option<Seq<char>> },
    RemovedField { field: Seq<char>, help: Seq<char>, span: Span },
    BranchPattern { pattern: Seq<char>, reason: Seq<char>, help: Seq<char>, span: Span },
    DuplicateBranch { entry: Seq<char>, span: Span },
}

pub open spec fn opt_view(o: Option<String>) -> Option<Seq<char>> {
    match o {
        Some(s) => Some(s@),
        None => None,
    }
}

impl View for ConfigError {
    type V = ConfigErrorView;

    open spec fn view(&self) -> ConfigErrorView {
        match self {
            ConfigError::Missing { path } => ConfigErrorView::Missing { path: path@ },
            ConfigError::Io { path, message } => ConfigErrorView::Io { path: path@, message: message@ },
            ConfigError::Parse { name, message, span, help } => ConfigErrorView::Parse {
                name: name@,
                message: message@,
                span: *span,
                help: opt_view(*help),
            },
            ConfigError::UnsupportedVersion { found, span } => ConfigErrorView::UnsupportedVersion {
                found: *found,
                span: *span,
            },
            ConfigError::EmptyField { field, span, help } => ConfigErrorView::EmptyField {
                field: field@,
                span: *span,
                help: opt_view(*help),
            },
            ConfigError::RemovedField { field, help, span } => ConfigErrorView::RemovedField {
                field: field@,
                help: help@,
                span: *span,
            },
            ConfigError::BranchPattern { pattern, reason, help, span } => ConfigErrorView::BranchPattern {
                pattern: pattern@,
                reason: reason@,
                help: help@,
                span: *span,
            },
            ConfigError::DuplicateBranch { entry, span } => ConfigErrorView::DuplicateBranch {
                entry: entry@,
                span: *span,
            },
        }
    }
}

/// A configuration error's one-line summary.
pub open spec fn config_message(e: ConfigErrorView) -> Seq<char> {
    match e {
        ConfigErrorView::Missing { path } => "no gh-ship configuration found at `"@ + path + "`"@,
        ConfigErrorView::Io { path, .. } => "failed to read `"@ + path + "`"@,
        ConfigErrorView::Parse { name, message, .. } => "invalid YAML in `"@ + name + "`: "@ + message,
        ConfigErrorView::UnsupportedVersion { found, .. } => "unsupported config version: "@ + codec::dec_text(found as nat)
            + " (expected "@ + codec::dec_text(CONFIG_VERSION as nat) + ")"@,
        ConfigErrorView::EmptyField { field, .. } => "`"@ + field + "` must not be empty"@,
        ConfigErrorView::RemovedField { field, .. } => "`"@ + field + "` is no longer a configuration key"@,
        ConfigErrorView::BranchPattern { pattern, reason, .. } => "invalid branch pattern `"@ + pattern + "`: "@ + reason,
        ConfigErrorView::DuplicateBranch { entry, .. } => "`branches` lists `"@ + entry + "` twice"@,
    }
}

impl ConfigError {
    /// The error's one-line summary.
    pub fn message(&self) -> (r: String)
        ensures
            r@ == config_message(self@),
    {
        match self {
            ConfigError::Missing { path } => concat3("no gh-ship configuration found at `", path.as_str(), "`"),
            ConfigError::Io { path, .. } => concat3("failed to read `", path.as_str(), "`"),
            ConfigError::Parse { name, message, .. } => {
                let mut out = concat3("invalid YAML in `", name.as_str(), "`: ");
                crate::text::push_str(&mut out, message.as_str());
                out
            },
            ConfigError::UnsupportedVersion { found, .. } => {
                let f = codec::dec_string(*found as u64);
                let v = codec::dec_string(CONFIG_VERSION as u64);
                let mut out = concat3("unsupported config version: ", f.as_str(), " (expected ");
                crate::text::push_str(&mut out, v.as_str());
                crate::text::push_str(&mut out, ")");
                out
            },
            ConfigError::EmptyField { field, .. } => concat3("`", field.as_str(), "` must not be empty"),
            ConfigError::RemovedField { field, .. } => concat3("`", field.as_str(), "` is no longer a configuration key"),
            ConfigError::BranchPattern { pattern, reason, .. } => {
                let mut out = concat3("invalid branch pattern `", pattern.as_str(), "`: ");
                crate::text::push_str(&mut out, reason.as_str());
                out
            },
            ConfigError::DuplicateBranch { entry, .. } => concat3("`branches` lists `", entry.as_str(), "` twice"),
        }
    }
}

/// The span of `needle` in a configuration text.
pub open spec fn span_in(text: Seq<char>, needle: Seq<char>) -> Span {
    suggest::substring_span(vstd::utf8::encode_utf8(text), vstd::utf8::encode_utf8(needle))
}

pub open spec fn branch_entry_help() -> Seq<char> {
    "each entry is a base branch name, or a glob such as `release/*`"@
}

pub open spec fn one_star_reason() -> Seq<char> {
    "a pattern may contain at most one `*`"@
}

pub open spec fn one_star_help() -> Seq<char> {
    "`*` captures the part of the branch name that varies, and `{{ match }}` is a single value — split this into several entries"@
}

/// What is wrong with entry `i` of `branches`, given the entries before it.
pub open spec fn entry_problem(entries: Seq<Seq<char>>, i: int, text: Seq<char>) -> Option<ConfigErrorView> {
    let e = entries[i];
    if text::trim(e).len() == 0 {
        Some(ConfigErrorView::EmptyField {
            field: "branches["@ + codec::dec_text(i as nat) + "]"@,
            span: span_in(text, "branches:"@),
            help: Some(branch_entry_help()),
        })
    } else if text::count_char(e, '*') > 1 {
        Some(ConfigErrorView::BranchPattern {
            pattern: e,
            reason: one_star_reason(),
            help: one_star_help(),
            span: span_in(text, e),
        })
    } else if entries.take(i).contains(e) {
        Some(ConfigErrorView::DuplicateBranch { entry: e, span: span_in(text, e) })
    } else {
        None
    }
}

/// The first problem among the first `n` entries of `branches`.
pub open spec fn branches_problem(entries: Seq<Seq<char>>, n: int, text: Seq<char>) -> Option<ConfigErrorView>
    decreases n,
{
    if n <= 0 {
        None
    } else {
        match branches_problem(entries, n - 1, text) {
            Some(p) => Some(p),
            None => entry_problem(entries, n - 1, text),
        }
    }
}

proof fn lemma_branches_problem_stays(entries: Seq<Seq<char>>, m: int, n: int, text: Seq<char>)
    requires
        m <= n,
        branches_problem(entries, m, text) is Some,
    ensures
        branches_problem(entries, n, text) == branches_problem(entries, m, text),
    decreases n - m,
{
    if m < n {
        lemma_branches_problem_stays(entries, m, n - 1, text);
    }
}

pub open spec fn strings(v: Seq<String>) -> Seq<Seq<char>> {
    v.map_values(|s: String| s@)
}

/// The first structural problem of a configuration, in the order the
/// checks run: version, `workflows.prepare`, `release_branch`, `branches`.
pub open spec fn settings_problem(s: Settings, text: Seq<char>) -> Option<ConfigErrorView> {
    if s.version != CONFIG_VERSION {
        Some(ConfigErrorView::UnsupportedVersion {
            found: s.version,
            span: span_in(text, "version: "@ + codec::dec_text(s.version as nat)),
        })
    } else if text::trim(s.workflows.prepare@).len() == 0 {
        Some(ConfigErrorView::EmptyField {
            field: "workflows.prepare"@,
            span: span_in(text, "prepare:"@),
            help: Some("name the workflow that prepares the release, e.g. `prepare: prepare-release`"@),
        })
    } else if text::trim(s.release_branch@).len() == 0 {
        Some(ConfigErrorView::EmptyField {
            field: "release_branch"@,
            span: span_in(text, "release_branch:"@),
            help: Some("omit it to use the default, `"@ + DEFAULT_RELEASE_BRANCH@ + "`"@),
        })
    } else {
        branches_problem(strings(s.branches@), s.branches@.len() as int, text)
    }
}

/// What a YAML reader reports when it refuses a text.
#[derive(Debug, Clone)]
pub struct YamlError {
    pub message: String,
    /// Byte offset of the problem, when known.
    pub index: Option<usize>,
}

pub open spec fn removed_base_branch_help() -> Seq<char> {
    "`base_branch` was replaced by `branches`, which lists every base branch gh-ship releases from. Write `branches: [develop]`."@
}

/// Guidance for the YAML reader's terse messages.
pub open spec fn parse_help_of(message: Seq<char>) -> Option<Seq<char>> {
    if text::contains(message, "unknown field"@) {
        Some("see https://noirbizarre.github.io/gh-ship/configuration/ for the full schema"@)
    } else if text::contains(message, "missing field `workflows`"@) {
        Some("add a `workflows:` block naming the workflow that prepares your release"@)
    } else if text::contains(message, "missing field `prepare`"@) {
        Some("`workflows.prepare` is the only required workflow"@)
    } else if text::contains(message, "missing field `version`"@) {
        Some("start the file with `version: "@ + codec::dec_text(CONFIG_VERSION as nat) + "`"@)
    } else {
        None
    }
}

/// The diagnostic for a text the YAML reader refused. A removed key gets
/// its migration instructions rather than an anonymous "unknown field".
pub open spec fn yaml_problem(name: Seq<char>, text: Seq<char>, e: YamlError) -> ConfigErrorView {
    if text::contains(e.message@, "unknown field `base_branch`"@) {
        ConfigErrorView::RemovedField {
            field: "base_branch"@,
            help: removed_base_branch_help(),
            span: span_in(text, "base_branch:"@),
        }
    } else {
        ConfigErrorView::Parse {
            name: name,
            message: e.message@,
            span: match e.index {
                Some(i) => Span { offset: i, len: 1 },
                None => Span { offset: 0, len: 0 },
            },
            help: parse_help_of(e.message@),
        }
    }
}

/// Turn the YAML reader's terse messages into something actionable.
pub fn parse_help(message: &str) -> (r: Option<String>)
    ensures
        opt_view(r) == parse_help_of(message@),
{
    if str_contains(message, "unknown field") {
        return Some(owned("see https://noirbizarre.github.io/gh-ship/configuration/ for the full schema"));
    }
    if str_contains(message, "missing field `workflows`") {
        return Some(owned("add a `workflows:` block naming the workflow that prepares your release"));
    }
    if str_contains(message, "missing field `prepare`") {
        return Some(owned("`workflows.prepare` is the only required workflow"));
    }
    if str_contains(message, "missing field `version`") {
        let v = codec::dec_string(CONFIG_VERSION as u64);
        return Some(concat3("start the file with `version: ", v.as_str(), "`"));
    }
    None
}

fn strs_contain(seen: &Vec<&str>, e: &str) -> (r: bool)
    ensures
        r == suggest::str_views(seen@).contains(e@),
{
    let mut i: usize = 0;
    while i < seen.len()
        invariant
            i <= seen@.len(),
            forall|j: int| 0 <= j < i ==> suggest::str_views(seen@)[j] != e@,
        decreases seen.len() - i,
    {
        if str_eq(seen[i], e) {
            assert(suggest::str_views(seen@)[i as int] == e@);
            return true;
        }
        i += 1;
    }
    false
}

impl Config {
    /// Build a configuration from what the YAML reader returned for
    /// `text`, then run the structural checks.
    pub fn from_parsed(name: &str, text: &str, parsed: Result<Settings, YamlError>) -> (r: Result<Config, ConfigError>)
        ensures
            match parsed {
                Err(e) => r matches Err(err) && err@ == yaml_problem(name@, text@, e),
                Ok(s) => match settings_problem(s, text@) {
                    Some(p) => r matches Err(err) && err@ == p,
                    None => r matches Ok(c) && c.settings == s && c.source.name@ == name@
                        && c.source.text@ == text@,
                },
            },
    {
        let source = Source { name: owned(name), text: owned(text) };
        match parsed {
            Err(e) => {
                if str_contains(e.message.as_str(), "unknown field `base_branch`") {
                    return Err(ConfigError::RemovedField {
                        field: owned("base_branch"),
                        help: owned(
                            "`base_branch` was replaced by `branches`, which lists every base branch gh-ship releases from. Write `branches: [develop]`.",
                        ),
                        span: source.locate("base_branch:"),
                    });
                }
                let span = match e.index {
                    Some(i) => Span::new(i, 1),
                    None => Span::new(0, 0),
                };
                Err(ConfigError::Parse { name: owned(name), help: parse_help(e.message.as_str()), message: e.message, span })
            },
            Ok(settings) => {
                let config = Config { settings, source };
                match config.check() {
                    Ok(()) => Ok(config),
                    Err(err) => Err(err),
                }
            },
        }
    }

    /// Structural checks that a deserializer cannot express.
    pub fn check(&self) -> (r: Result<(), ConfigError>)
        ensures
            match settings_problem(self.settings, self.source.text@) {
                Some(p) => r matches Err(e) && e@ == p,
                None => r is Ok,
            },
    {
        let s = &self.settings;
        if s.version != CONFIG_VERSION {
            let v = codec::dec_string(s.version as u64);
            let needle = concat2("version: ", v.as_str());
            return Err(ConfigError::UnsupportedVersion { found: s.version, span: self.source.locate(needle.as_str()) });
        }
        if is_blank(s.workflows.prepare.as_str()) {
            return Err(ConfigError::EmptyField {
                field: owned("workflows.prepare"),
                span: self.source.locate("prepare:"),
                help: Some(owned("name the workflow that prepares the release, e.g. `prepare: prepare-release`")),
            });
        }
        if is_blank(s.release_branch.as_str()) {
            return Err(ConfigError::EmptyField {
                field: owned("release_branch"),
                span: self.source.locate("release_branch:"),
                help: Some(concat3("omit it to use the default, `", DEFAULT_RELEASE_BRANCH, "`")),
            });
        }
        self.check_branches()
    }

    /// Shape checks for `branches`: no blank entry, at most one `*` per
    /// entry, no entry twice.
    pub fn check_branches(&self) -> (r: Result<(), ConfigError>)
        ensures
            match branches_problem(strings(self.settings.branches@), self.settings.branches@.len() as int, self.source.text@) {
                Some(p) => r matches Err(e) && e@ == p,
                None => r is Ok,
            },
    {
        let entries = &self.settings.branches;
        let ghost es = strings(entries@);
        let ghost text = self.source.text@;
        let mut seen: Vec<&str> = Vec::new();
        let mut i: usize = 0;
        while i < entries.len()
            invariant
                i <= entries@.len(),
                es == strings(entries@),
                entries@ == self.settings.branches@,
                text == self.source.text@,
                branches_problem(es, i as int, text) is None,
                suggest::str_views(seen@) == es.take(i as int),
            decreases entries.len() - i,
        {
            let entry = entries[i].as_str();
            assert(es[i as int] == entry@);
            proof {
                if entry_problem(es, i as int, text) is Some {
                    lemma_branches_problem_stays(es, i + 1, es.len() as int, text);
                }
            }
            if is_blank(entry) {
                let n = codec::dec_string(i as u64);
                return Err(ConfigError::EmptyField {
                    field: concat3("branches[", n.as_str(), "]"),
                    span: self.source.locate("branches:"),
                    help: Some(owned("each entry is a base branch name, or a glob such as `release/*`")),
                });
            }
            let chars = text::chars_of(entry);
            if count_of(chars.as_slice(), '*') > 1 {
                return Err(ConfigError::BranchPattern {
                    pattern: owned(entry),
                    reason: owned("a pattern may contain at most one `*`"),
                    help: owned(
                        "`*` captures the part of the branch name that varies, and `{{ match }}` is a single value — split this into several entries",
                    ),
                    span: self.source.locate(entry),
                });
            }
            if strs_contain(&seen, entry) {
                return Err(ConfigError::DuplicateBranch { entry: owned(entry), span: self.source.locate(entry) });
            }
            let ghost before = suggest::str_views(seen@);
            seen.push(entry);
            assert(suggest::str_views(seen@) =~= before.push(entry@));
            assert(es.take(i + 1) =~= es.take(i as int).push(es[i as int]));
            i += 1;
        }
        assert(es.len() == entries@.len());
        Ok(())
    }

    /// The `release_branch` template (not a branch name: with several
    /// release lines it renders differently per line).
    pub fn release_branch_template(&self) -> (r: &str)
        ensures
            r@ == self.settings.release_branch@,
    {
        self.settings.release_branch.as_str()
    }

    /// The `release_branch` template in force for the entry at `entry`:
    /// its override, else the top-level template; the top-level one for
    /// the single line (`None`).
    pub fn release_branch_template_for(&self, entry: Option<usize>) -> (r: &str)
        ensures
            r@ == match entry {
                Some(i) => template_for(*self, i as int),
                None => self.settings.release_branch@,
            },
    {
        match entry {
            Some(i) => {
                if i < self.settings.overrides.len() {
                    match &self.settings.overrides[i] {
                        Some(t) => t.as_str(),
                        None => self.settings.release_branch.as_str(),
                    }
                } else {
                    self.settings.release_branch.as_str()
                }
            },
            None => self.settings.release_branch.as_str(),
        }
    }

    /// Whether the entry at `i` overrides the top-level template.
    pub fn overrides_template(&self, i: usize) -> (r: bool)
        ensures
            r == overridden(*self, i as int),
    {
        i < self.settings.overrides.len() && self.settings.overrides[i].is_some()
    }

    /// The configured base branches; empty when the repository default
    /// branch is the only release line.
    pub fn branches(&self) -> (r: &[String])
        ensures
            r@ == self.settings.branches@,
    {
        self.settings.branches.as_slice()
    }

    /// Whether explicit release lines are configured.
    pub fn has_branches(&self) -> (r: bool)
        ensures
            r == (self.settings.branches@.len() > 0),
    {
        self.settings.branches.len() > 0
    }

    pub fn prepare_workflow(&self) -> (r: &str)
        ensures
            r@ == self.settings.workflows.prepare@,
    {
        self.settings.workflows.prepare.as_str()
    }

    pub fn publish_workflow(&self) -> (r: Option<&str>)
        ensures
            match self.settings.workflows.publish {
                Some(p) => r matches Some(x) && x@ == p@,
                None => r is None,
            },
    {
        match &self.settings.workflows.publish {
            Some(p) => Some(p.as_str()),
            None => None,
        }
    }

    pub fn pull_request(&self) -> (r: &PullRequestConfig)
        ensures
            *r == self.settings.pull_request,
    {
        &self.settings.pull_request
    }

    pub fn release(&self) -> (r: &ReleaseConfig)
        ensures
            *r == self.settings.release,
    {
        &self.settings.release
    }
}

/// The diagnostic code of each kind of [`ConfigError`].
pub open spec fn config_code(e: ConfigError) -> Seq<char> {
    match e {
        ConfigError::Missing { .. } => "ship::config::missing"@,
        ConfigError::Io { .. } => "ship::config::io"@,
        ConfigError::Parse { .. } => "ship::config::parse"@,
        ConfigError::UnsupportedVersion { .. } => "ship::config::version"@,
        ConfigError::EmptyField { .. } => "ship::config::empty"@,
        ConfigError::RemovedField { .. } => "ship::config::removed_field"@,
        ConfigError::BranchPattern { .. } => "ship::config::branch_pattern"@,
        ConfigError::DuplicateBranch { .. } => "ship::config::duplicate_branch"@,
    }
}

impl ConfigError {
    /// The diagnostic code that names this kind of error.
    pub fn code(&self) -> (r: &'static str)
        ensures
            r@ == config_code(*self),
    {
        match self {
            ConfigError::Missing { .. } => "ship::config::missing",
            ConfigError::Io { .. } => "ship::config::io",
            ConfigError::Parse { .. } => "ship::config::parse",
            ConfigError::UnsupportedVersion { .. } => "ship::config::version",
            ConfigError::EmptyField { .. } => "ship::config::empty",
            ConfigError::RemovedField { .. } => "ship::config::removed_field",
            ConfigError::BranchPattern { .. } => "ship::config::branch_pattern",
            ConfigError::DuplicateBranch { .. } => "ship::config::duplicate_branch",
        }
    }
}

/// The help each configuration error carries.
pub open spec fn config_help(e: ConfigError) -> Option<Seq<char>> {
    match e {
        ConfigError::Missing { .. } => Some("run `gh ship init` to create one — it takes less than a minute"@),
        ConfigError::Io { .. } => Some("check the file is readable"@),
        ConfigError::Parse { help, .. } => opt_view(help),
        ConfigError::UnsupportedVersion { .. } => Some(
            "set `version: "@ + crate::artifact::codec::dec_text(CONFIG_VERSION as nat) + "` at the top of the file"@,
        ),
        ConfigError::EmptyField { help, .. } => opt_view(help),
        ConfigError::RemovedField { help, .. } => Some(help@),
        ConfigError::BranchPattern { help, .. } => Some(help@),
        ConfigError::DuplicateBranch { .. } => Some("the first match wins, so the second entry is dead — remove one"@),
    }
}

/// Where in the file an error points, and what the pointer says.
pub open spec fn config_label(e: ConfigError) -> Option<(Span, Seq<char>)> {
    match e {
        ConfigError::Missing { .. } => None,
        ConfigError::Io { .. } => None,
        ConfigError::Parse { span, .. } => Some((span, "here"@)),
        ConfigError::UnsupportedVersion { span, .. } => Some((span, "unsupported"@)),
        ConfigError::EmptyField { span, .. } => Some((span, "empty"@)),
        ConfigError::RemovedField { span, .. } => Some((span, "remove this"@)),
        ConfigError::BranchPattern { span, .. } => Some((span, "here"@)),
        ConfigError::DuplicateBranch { span, .. } => Some((span, "duplicate"@)),
    }
}

impl ConfigError {
    /// What to do about the error.
    pub fn help(&self) -> (r: Option<String>)
        ensures
            opt_view(r) == config_help(*self),
    {
        match self {
            ConfigError::Missing { .. } => Some(owned("run `gh ship init` to create one — it takes less than a minute")),
            ConfigError::Io { .. } => Some(owned("check the file is readable")),
            ConfigError::Parse { help, .. } => match help {
                Some(h) => Some(owned(h.as_str())),
                None => None,
            },
            ConfigError::UnsupportedVersion { .. } => {
                let v = crate::artifact::codec::dec_string(CONFIG_VERSION as u64);
                let mut out = concat2("set `version: ", v.as_str());
                crate::text::push_str(&mut out, "` at the top of the file");
                Some(out)
            },
            ConfigError::EmptyField { help, .. } => match help {
                Some(h) => Some(owned(h.as_str())),
                None => None,
            },
            ConfigError::RemovedField { help, .. } => Some(owned(help.as_str())),
            ConfigError::BranchPattern { help, .. } => Some(owned(help.as_str())),
            ConfigError::DuplicateBranch { .. } => Some(owned("the first match wins, so the second entry is dead — remove one")),
        }
    }

    /// The span of the file the error points at, and its label.
    pub fn label(&self) -> (r: Option<(Span, &'static str)>)
        ensures
            match config_label(*self) {
                Some((sp, l)) => r matches Some((x, m)) && x == sp && m@ == l,
                None => r is None,
            },
    {
        match self {
            ConfigError::Missing { .. } => None,
            ConfigError::Io { .. } => None,
            ConfigError::Parse { span, .. } => Some((*span, "here")),
            ConfigError::UnsupportedVersion { span, .. } => Some((*span, "unsupported")),
            ConfigError::EmptyField { span, .. } => Some((*span, "empty")),
            ConfigError::RemovedField { span, .. } => Some((*span, "remove this")),
            ConfigError::BranchPattern { span, .. } => Some((*span, "here")),
            ConfigError::DuplicateBranch { span, .. } => Some((*span, "duplicate")),
        }
    }
}

} // verus!
