//! Artifact validation with human-grade diagnostics.
//!
//! The pipeline is staged so each failure mode gets the best message:
//!
//! 1. **Parse**: JSON syntax errors point at the offending byte.
//! 2. **Version pre-flight**: an unknown `schemaVersion` is reported as
//!    "upgrade gh-ship", not as a `const` violation buried in the schema.
//! 3. **Schema**: every violation becomes its own labelled issue.
//! 4. **Decode**: the document is read into an [`Artifact`].

use vstd::prelude::*;

use super::codec;
use super::json::{self, parse_json, to_json_text, Json};
use super::model::{Artifact, ArtifactView};
use super::schema::{self, SchemaError, SchemaIssue};
use super::span::{self, Span, Step};
use super::{SCHEMA_URL, SCHEMA_VERSION};
use crate::suggest;
use crate::text::{self, concat2, concat3, debug_quoted, owned, push_str, str_eq};

verus! {

// --- Small wording helpers -------------------------------------------------------

/// `""` for one, `"s"` otherwise.
pub open spec fn plural_of(n: nat) -> Seq<char> {
    if n == 1 {
        ""@
    } else {
        "s"@
    }
}

/// Items separated by `", "`, as `[String]::join(", ")`.
pub open spec fn comma_list(items: Seq<Seq<char>>) -> Seq<char>
    decreases items.len(),
{
    if items.len() == 0 {
        Seq::empty()
    } else if items.len() == 1 {
        items[0]
    } else {
        comma_list(items.drop_last()) + ", "@ + items.last()
    }
}

/// An English list: `a`, `a and b`, `a, b, and c`.
pub open spec fn joined(items: Seq<Seq<char>>, conj: Seq<char>) -> Seq<char> {
    if items.len() == 0 {
        Seq::empty()
    } else if items.len() == 1 {
        items[0]
    } else if items.len() == 2 {
        items[0] + " "@ + conj + " "@ + items[1]
    } else {
        comma_list(items.drop_last()) + ", "@ + conj + " "@ + items.last()
    }
}

/// `s` between backticks.
pub open spec fn ticked(s: Seq<char>) -> Seq<char> {
    "`"@ + s + "`"@
}

pub open spec fn ticked_all(items: Seq<Seq<char>>) -> Seq<Seq<char>> {
    items.map_values(|s: Seq<char>| ticked(s))
}

pub open spec fn views(v: Seq<String>) -> Seq<Seq<char>> {
    v.map_values(|s: String| s@)
}

pub(crate) fn plural(n: usize) -> (r: &'static str)
    ensures
        r@ == plural_of(n as nat),
{
    if n == 1 {
        ""
    } else {
        "s"
    }
}

pub(crate) fn comma_joined(items: &[String], n: usize) -> (r: String)
    requires
        n <= items@.len(),
    ensures
        r@ == comma_list(views(items@).take(n as int)),
{
    let mut out = String::new();
    let mut i: usize = 0;
    assert(views(items@).take(0) =~= Seq::<Seq<char>>::empty());
    while i < n
        invariant
            i <= n <= items@.len(),
            out@ == comma_list(views(items@).take(i as int)),
        decreases n - i,
    {
        let ghost before = views(items@).take(i as int);
        assert(views(items@).take(i + 1).drop_last() =~= before);
        if i > 0 {
            push_str(&mut out, ", ");
        }
        push_str(&mut out, items[i].as_str());
        i += 1;
    }
    out
}

/// Join items as an English list with the conjunction `conj`.
fn join_with(items: &[String], conj: &str) -> (r: String)
    ensures
        r@ == joined(views(items@), conj@),
{
    let n = items.len();
    if n == 0 {
        String::new()
    } else if n == 1 {
        items[0].clone()
    } else if n == 2 {
        let mut out = items[0].clone();
        push_str(&mut out, " ");
        push_str(&mut out, conj);
        push_str(&mut out, " ");
        push_str(&mut out, items[1].as_str());
        out
    } else {
        let mut out = comma_joined(items, n - 1);
        assert(views(items@).take(n - 1) =~= views(items@).drop_last());
        push_str(&mut out, ", ");
        push_str(&mut out, conj);
        push_str(&mut out, " ");
        push_str(&mut out, items[n - 1].as_str());
        out
    }
}

/// `a`, `a and b`, `a, b, and c`.
fn join(items: &[String]) -> (r: String)
    ensures
        r@ == joined(views(items@), "and"@),
{
    join_with(items, "and")
}

/// `a`, `a or b`, `a, b, or c`.
fn join_or(items: &[String]) -> (r: String)
    ensures
        r@ == joined(views(items@), "or"@),
{
    join_with(items, "or")
}

/// Each item between backticks.
fn ticked_strings(items: &[String]) -> (r: Vec<String>)
    ensures
        views(r@) == ticked_all(views(items@)),
{
    let mut out: Vec<String> = Vec::new();
    let mut i: usize = 0;
    while i < items.len()
        invariant
            i <= items@.len(),
            views(out@) == ticked_all(views(items@)).take(i as int),
        decreases items.len() - i,
    {
        let ghost before = views(out@);
        let t = concat3("`", items[i].as_str(), "`");
        let ghost tv = t@;
        out.push(t);
        assert(views(out@) =~= before.push(tv));
        assert(ticked_all(views(items@)).take(i + 1) =~= ticked_all(views(items@)).take(i as int).push(tv));
        i += 1;
    }
    assert(ticked_all(views(items@)).take(i as int) =~= ticked_all(views(items@)));
    out
}

/// How a value's type reads in a sentence.
pub open spec fn kind_name_of(v: Json) -> Seq<char> {
    match v {
        Json::Null => "null"@,
        Json::Bool(_) => "a boolean"@,
        Json::Number(_) => "a number"@,
        Json::Str(_) => "a string"@,
        Json::Array(_) => "an array"@,
        Json::Object(_) => "an object"@,
    }
}

fn kind_name(v: &Json) -> (r: &'static str)
    ensures
        r@ == kind_name_of(*v),
{
    match v {
        Json::Null => "null",
        Json::Bool(_) => "a boolean",
        Json::Number(_) => "a number",
        Json::Str(_) => "a string",
        Json::Array(_) => "an array",
        Json::Object(_) => "an object",
    }
}

/// How many characters of a string a message quotes.
pub const COMPACT_MAX: usize = 40;

/// A string quoted for a message, cut after 40 characters so a huge
/// changelog never floods the terminal.
pub open spec fn compact_str_of(s: Seq<char>) -> Seq<char> {
    if s.len() <= COMPACT_MAX {
        text::debug_text(s)
    } else {
        text::debug_text(s.take(COMPACT_MAX as int)) + "…"@
    }
}

/// A value as a message shows it: strings quoted and cut, other values as
/// their compact JSON.
pub open spec fn compact_of(v: Json) -> Seq<char> {
    match v {
        Json::Str(s) => compact_str_of(s@),
        _ => json::json_text(v),
    }
}

fn compact_str(s: &str) -> (r: String)
    ensures
        r@ == compact_str_of(s@),
{
    if text::char_count(s) <= COMPACT_MAX {
        debug_quoted(s)
    } else {
        let head = text::take_chars(s, COMPACT_MAX);
        let mut out = debug_quoted(head.as_str());
        push_str(&mut out, "…");
        out
    }
}

fn compact(v: &Json) -> (r: String)
    ensures
        r@ == compact_of(*v),
{
    match v {
        Json::Str(s) => compact_str(s.as_str()),
        _ => to_json_text(v),
    }
}

/// The fields valid at a pointer, for "did you mean?".
pub open spec fn known_siblings_of(pointer: Seq<char>) -> Seq<Seq<char>> {
    if pointer == ""@ {
        seq![
            "$schema"@,
            "schemaVersion"@,
            "changed"@,
            "version"@,
            "tag"@,
            "release"@,
            "pull_request"@,
        ]
    } else if pointer == "/release"@ {
        seq!["name"@, "notes"@, "prerelease"@, "make_latest"@]
    } else if pointer == "/pull_request"@ {
        seq!["title"@, "body"@, "labels"@]
    } else {
        Seq::empty()
    }
}

fn known_siblings(pointer: &str) -> (r: Vec<&'static str>)
    ensures
        suggest::str_views(r@) == known_siblings_of(pointer@),
{
    let r: Vec<&'static str> = if str_eq(pointer, "") {
        vec!["$schema", "schemaVersion", "changed", "version", "tag", "release", "pull_request"]
    } else if str_eq(pointer, "/release") {
        vec!["name", "notes", "prerelease", "make_latest"]
    } else if str_eq(pointer, "/pull_request") {
        vec!["title", "body", "labels"]
    } else {
        Vec::new()
    };
    assert(suggest::str_views(r@) =~= known_siblings_of(pointer@));
    r
}

/// The explanation for `changed`, `version` and `tag`: the most common
/// authoring mistake.
pub open spec fn changed_help() -> Seq<char> {
    "`changed: true` promises there is something to release, so `version` and `tag` are required. If there is nothing to release, set `changed: false` and omit them."@
}

/// Guidance for missing required properties.
pub open spec fn required_help_of(want: Seq<Seq<char>>) -> Option<Seq<char>> {
    if want.contains("version"@) || want.contains("tag"@) {
        Some(changed_help())
    } else if want.contains("schemaVersion"@) {
        Some("every artifact must declare `\"schemaVersion\": "@ + codec::dec_text(SCHEMA_VERSION as nat) + "`"@)
    } else if want.contains("changed"@) {
        Some("`changed` tells gh-ship whether to proceed; it is required even when true"@)
    } else {
        None
    }
}

fn contains_str(items: &[String], s: &str) -> (r: bool)
    ensures
        r == views(items@).contains(s@),
{
    let mut i: usize = 0;
    while i < items.len()
        invariant
            i <= items@.len(),
            forall|j: int| 0 <= j < i ==> views(items@)[j] != s@,
        decreases items.len() - i,
    {
        if str_eq(items[i].as_str(), s) {
            assert(views(items@)[i as int] == s@);
            return true;
        }
        i += 1;
    }
    false
}

fn required_help(want: &[String]) -> (r: Option<String>)
    ensures
        match required_help_of(views(want@)) {
            Some(h) => r matches Some(x) && x@ == h,
            None => r is None,
        },
{
    if contains_str(want, "version") || contains_str(want, "tag") {
        return Some(owned(
            "`changed: true` promises there is something to release, so `version` and `tag` are required. If there is nothing to release, set `changed: false` and omit them.",
        ));
    }
    if contains_str(want, "schemaVersion") {
        let v = codec::dec_string(SCHEMA_VERSION as u64);
        return Some(concat3("every artifact must declare `\"schemaVersion\": ", v.as_str(), "`"));
    }
    if contains_str(want, "changed") {
        return Some(owned("`changed` tells gh-ship whether to proceed; it is required even when true"));
    }
    None
}

// --- Positions ---------------------------------------------------------------------

/// The end of the line that starts at `s`: just after its `\n`, or the
/// end of the text.
pub open spec fn line_end(b: Seq<u8>, s: int) -> int
    decreases b.len() - s,
{
    if s < 0 || s >= b.len() {
        s
    } else if b[s] == 0x0a {
        s + 1
    } else {
        line_end(b, s + 1)
    }
}

/// The one-byte span at 1-based `column` of line `line`, scanning lines
/// from byte `s`, which starts line `k`.
pub open spec fn line_span(b: Seq<u8>, s: int, k: int, line: int, column: int) -> Span
    decreases b.len() - s,
{
    if s < 0 || s >= b.len() {
        Span { offset: (if b.len() > 0 { b.len() - 1 } else { 0 }) as usize, len: 1 }
    } else {
        let e = line_end(b, s);
        if k == line {
            let c = if column > 0 { column - 1 } else { 0 };
            let col = if c < e - s { c } else { e - s };
            Span { offset: (s + col) as usize, len: 1 }
        } else if s < e <= b.len() {
            line_span(b, e, k + 1, line, column)
        } else {
            Span { offset: 0, len: 0 }
        }
    }
}

/// The span a 1-based line and column designate in the bytes of a text;
/// line 0 means unknown.
pub open spec fn line_col_span(b: Seq<u8>, line: int, column: int) -> Span {
    if line == 0 {
        Span { offset: 0, len: 0 }
    } else {
        line_span(b, 0, 1, line, column)
    }
}

proof fn lemma_line_end(b: Seq<u8>, s: int)
    requires
        0 <= s < b.len(),
    ensures
        s < line_end(b, s) <= b.len(),
    decreases b.len() - s,
{
    if b[s] != 0x0a {
        if s + 1 < b.len() {
            lemma_line_end(b, s + 1);
        } else {
            assert(line_end(b, s + 1) == s + 1);
        }
    }
}

/// Convert a 1-based line and column into a one-byte span.
pub fn line_col_to_span(text: &str, line: usize, column: usize) -> (r: Span)
    ensures
        r == line_col_span(vstd::utf8::encode_utf8(text@), line as int, column as int),
{
    if line == 0 {
        return Span::new(0, 0);
    }
    let b = text.as_bytes();
    let n = b.len();
    let mut s: usize = 0;
    let mut k: usize = 1;
    while s < n
        invariant
            n == b@.len(),
            b@ == vstd::utf8::encode_utf8(text@),
            s <= n,
            1 <= k,
            k <= line,
            line_col_span(b@, line as int, column as int) == line_span(b@, s as int, k as int, line as int, column as int),
        decreases n - s,
    {
        let mut e = s;
        while e < n && b[e] != 0x0a
            invariant
                n == b@.len(),
                s <= e <= n,
                line_end(b@, e as int) == line_end(b@, s as int),
            decreases n - e,
        {
            e += 1;
        }
        if e < n {
            e += 1;
        }
        assert(e as int == line_end(b@, s as int));
        if k == line {
            let c = if column > 0 { column - 1 } else { 0 };
            let col = if c < e - s { c } else { e - s };
            return Span::new(s + col, 1);
        }
        proof {
            lemma_line_end(b@, s as int);
        }
        s = e;
        k += 1;
    }
    Span::new(if n > 0 { n - 1 } else { 0 }, 1)
}

// --- Issues ------------------------------------------------------------------------

/// A single schema violation, with where to point and what to do.
#[derive(Debug, Clone)]
pub struct Issue {
    pub message: String,
    pub span: Span,
    pub label: String,
    pub help: Option<String>,
}

pub struct IssueView {
    pub message: Seq<char>,
    pub span: Span,
    pub label: Seq<char>,
    pub help: Option<Seq<char>>,
}

pub open spec fn opt_str_view(o: Option<String>) -> Option<Seq<char>> {
    match o {
        Some(s) => Some(s@),
        None => None,
    }
}

impl View for Issue {
    type V = IssueView;

    open spec fn view(&self) -> IssueView {
        IssueView {
            message: self.message@,
            span: self.span,
            label: self.label@,
            help: opt_str_view(self.help),
        }
    }
}

pub open spec fn issues_view(v: Seq<Issue>) -> Seq<IssueView> {
    v.map_values(|i: Issue| i@)
}

/// How a violation's location reads in a sentence.
pub open spec fn at_of(pointer: Seq<char>) -> Seq<char> {
    if pointer.len() == 0 {
        "the artifact"@
    } else {
        ticked(pointer)
    }
}

pub open spec fn x_prefix_help() -> Seq<char> {
    "unknown fields are rejected so typos cannot silently do nothing; prefix a field with `x-` to carry your own metadata"@
}

/// A violation in the artifact's own vocabulary: message, label, help,
/// and the span to point at when the value's own span is not the right
/// place. Every message says what is wrong; every help what to do.
pub open spec fn described(
    kind: SchemaIssue,
    kind_text: Seq<char>,
    pointer: Seq<char>,
    path: Seq<span::StepView>,
    b: Seq<u8>,
) -> (Seq<char>, Seq<char>, Option<Seq<char>>, Option<Span>) {
    let at = at_of(pointer);
    match kind {
        SchemaIssue::Required { want } => {
            let list = joined(ticked_all(views(want@)), "and"@);
            (at + " is missing "@ + list, "missing "@ + list, required_help_of(views(want@)), None)
        },
        SchemaIssue::AdditionalProperties { got } => {
            let names = views(got@);
            let help = if names.len() > 0 {
                match suggest::suggestion(names[0], known_siblings_of(pointer)) {
                    Some(s) => Some("did you mean `"@ + s + "`?"@),
                    None => Some(x_prefix_help()),
                }
            } else {
                Some(x_prefix_help())
            };
            let sp = if names.len() > 0 {
                span::as_span(span::located_key(b, path, names[0]))
            } else {
                None
            };
            (
                at + " has unknown field"@ + plural_of(names.len()) + " "@ + joined(ticked_all(names), "and"@),
                "not allowed here"@,
                help,
                sp,
            )
        },
        SchemaIssue::Type { got, want } => (
            at + " must be "@ + joined(views(want@), "or"@) + ", but is "@ + got@,
            "expected "@ + joined(views(want@), "or"@),
            None,
            None,
        ),
        SchemaIssue::Const { want } => (at + " must be "@ + compact_of(want), "expected "@ + compact_of(want), None, None),
        SchemaIssue::MinLength { want } => (
            at + " must not be empty"@,
            "empty"@,
            if want == 1 {
                Some("supply a value, or omit the field entirely"@)
            } else {
                None
            },
            None,
        ),
        SchemaIssue::Pattern { got } => (
            at + " has an invalid value: "@ + compact_str_of(got@),
            "invalid format"@,
            if pointer == "/tag"@ {
                Some("a git tag cannot contain whitespace"@)
            } else if pointer == "/version"@ {
                Some("`version` must not have leading or trailing whitespace"@)
            } else {
                None
            },
            None,
        ),
        SchemaIssue::UniqueItems { first, second } => (
            at + " contains duplicate entries (items "@ + codec::dec_text(first as nat) + " and "@
                + codec::dec_text(second as nat) + ")"@,
            "duplicated"@,
            None,
            None,
        ),
        SchemaIssue::Other => (at + ": "@ + kind_text, "here"@, None, None),
    }
}

pub open spec fn opt_string_view(o: Option<String>) -> Option<Seq<char>> {
    opt_str_view(o)
}

/// Translate a violation into (message, label, help, span override).
fn describe(
    kind: &SchemaIssue,
    kind_text: &str,
    pointer: &str,
    path: &[Step],
    text: &str,
) -> (r: (String, String, Option<String>, Option<Span>))
    ensures
        (r.0@, r.1@, opt_str_view(r.2), r.3) == described(
            *kind,
            kind_text@,
            pointer@,
            span::steps_view(path@),
            vstd::utf8::encode_utf8(text@),
        ),
{
    let at = if pointer.is_empty() {
        owned("the artifact")
    } else {
        concat3("`", pointer, "`")
    };
    match kind {
        SchemaIssue::Required { want } => {
            let missing = ticked_strings(want.as_slice());
            let list = join(missing.as_slice());
            let mut message = at;
            push_str(&mut message, " is missing ");
            push_str(&mut message, list.as_str());
            let label = concat2("missing ", list.as_str());
            (message, label, required_help(want.as_slice()), None)
        },
        SchemaIssue::AdditionalProperties { got } => {
            let quoted = ticked_strings(got.as_slice());
            let known = known_siblings(pointer);
            let help = if got.len() > 0 {
                match suggest::did_you_mean(got[0].as_str(), known.as_slice()) {
                    Some(h) => Some(h),
                    None => Some(owned(
                        "unknown fields are rejected so typos cannot silently do nothing; prefix a field with `x-` to carry your own metadata",
                    )),
                }
            } else {
                Some(owned(
                    "unknown fields are rejected so typos cannot silently do nothing; prefix a field with `x-` to carry your own metadata",
                ))
            };
            let sp = if got.len() > 0 {
                span::locate_key(text, path, got[0].as_str())
            } else {
                None
            };
            let mut message = at;
            push_str(&mut message, " has unknown field");
            push_str(&mut message, plural(got.len()));
            push_str(&mut message, " ");
            let list = join(quoted.as_slice());
            push_str(&mut message, list.as_str());
            (message, owned("not allowed here"), help, sp)
        },
        SchemaIssue::Type { got, want } => {
            let list = join_or(want.as_slice());
            let mut message = at;
            push_str(&mut message, " must be ");
            push_str(&mut message, list.as_str());
            push_str(&mut message, ", but is ");
            push_str(&mut message, got.as_str());
            (message, concat2("expected ", list.as_str()), None, None)
        },
        SchemaIssue::Const { want } => {
            let c = compact(want);
            let mut message = at;
            push_str(&mut message, " must be ");
            push_str(&mut message, c.as_str());
            (message, concat2("expected ", c.as_str()), None, None)
        },
        SchemaIssue::MinLength { want } => {
            let mut message = at;
            push_str(&mut message, " must not be empty");
            let help = if *want == 1 {
                Some(owned("supply a value, or omit the field entirely"))
            } else {
                None
            };
            (message, owned("empty"), help, None)
        },
        SchemaIssue::Pattern { got } => {
            let help = if str_eq(pointer, "/tag") {
                Some(owned("a git tag cannot contain whitespace"))
            } else if str_eq(pointer, "/version") {
                Some(owned("`version` must not have leading or trailing whitespace"))
            } else {
                None
            };
            let c = compact_str(got.as_str());
            let mut message = at;
            push_str(&mut message, " has an invalid value: ");
            push_str(&mut message, c.as_str());
            (message, owned("invalid format"), help, None)
        },
        SchemaIssue::UniqueItems { first, second } => {
            let a = codec::dec_string(*first as u64);
            let b = codec::dec_string(*second as u64);
            let mut message = at;
            push_str(&mut message, " contains duplicate entries (items ");
            push_str(&mut message, a.as_str());
            push_str(&mut message, " and ");
            push_str(&mut message, b.as_str());
            push_str(&mut message, ")");
            (message, owned("duplicated"), None, None)
        },
        SchemaIssue::Other => {
            let mut message = at;
            push_str(&mut message, ": ");
            push_str(&mut message, kind_text);
            (message, owned("here"), None, None)
        },
    }
}

/// The issue a leaf of the error tree becomes: described, pointed at its
/// override span, else at the value, else at the start of the text.
pub open spec fn leaf_issue(e: SchemaError, text: Seq<char>) -> IssueView {
    let b = vstd::utf8::encode_utf8(text);
    let path = span::prop_path(span::pointer_names(e.pointer@));
    let d = described(e.kind, e.kind_text@, e.pointer@, path, b);
    IssueView {
        message: d.0,
        span: match d.3 {
            Some(s) => s,
            None => match span::as_span(span::located(b, path)) {
                Some(s) => s,
                None => Span { offset: 0, len: 0 },
            },
        },
        label: d.1,
        help: d.2,
    }
}

/// The issues of an error tree: one per leaf, left to right.
pub open spec fn leaf_issues(e: SchemaError, text: Seq<char>) -> Seq<IssueView>
    decreases e,
{
    if e.causes@.len() == 0 {
        seq![leaf_issue(e, text)]
    } else {
        proof {
            assert(decreases_to!(e => e.causes));
            assert(decreases_to!(e.causes => e.causes@));
        }
        causes_issues(e.causes@, text)
    }
}

pub open spec fn causes_issues(cs: Seq<SchemaError>, text: Seq<char>) -> Seq<IssueView>
    decreases cs,
{
    if cs.len() == 0 {
        Seq::empty()
    } else {
        causes_issues(cs.drop_last(), text) + leaf_issues(cs.last(), text)
    }
}

/// Walk the error tree and turn every leaf into an [`Issue`].
fn collect(err: &SchemaError, text: &str, out: &mut Vec<Issue>)
    ensures
        issues_view(final(out)@) == issues_view(old(out)@) + leaf_issues(*err, text@),
    decreases err,
{
    let ghost start = issues_view(out@);
    if err.causes.len() > 0 {
        let mut i: usize = 0;
        assert(err.causes@.take(0) =~= Seq::<SchemaError>::empty());
        assert(start + causes_issues(err.causes@.take(0), text@) =~= start);
        while i < err.causes.len()
            invariant
                i <= err.causes@.len(),
                issues_view(out@) == start + causes_issues(err.causes@.take(i as int), text@),
            decreases err.causes.len() - i,
        {
            assert(err.causes@.take(i + 1).drop_last() =~= err.causes@.take(i as int));
            proof {
                assert(decreases_to!(*err => err.causes));
                assert(decreases_to!(err.causes => err.causes@));
                assert(decreases_to!(err.causes@ => err.causes@[i as int]));
            }
            let ghost before = issues_view(out@);
            collect(&err.causes[i], text, out);
            assert(issues_view(out@) =~= start + causes_issues(err.causes@.take(i + 1), text@));
            i += 1;
        }
        assert(err.causes@.take(i as int) =~= err.causes@);
        return;
    }
    let pointer = err.pointer.as_str();
    let path = span::parse_pointer(pointer);
    let (message, label, help, sp) = describe(&err.kind, err.kind_text.as_str(), pointer, path.as_slice(), text);
    let sp = match sp {
        Some(s) => s,
        None => match span::locate(text, path.as_slice()) {
            Some(s) => s,
            None => Span::new(0, 0),
        },
    };
    let issue = Issue { message, span: sp, label, help };
    let ghost iv = issue@;
    out.push(issue);
    assert(issues_view(out@) =~= start.push(iv));
}

// --- The pipeline ----------------------------------------------------------------

/// Everything that can go wrong reading a `ship.release.json`.
#[derive(Debug, Clone)]
pub enum ArtifactError {
    /// The file could not be read; `message` is the system's reason.
    Io { path: String, message: String },
    /// The text is not JSON, or the document does not decode.
    Json { path: String, message: String, span: Span },
    /// `schemaVersion` names a protocol this build does not speak.
    UnsupportedVersion { found: String, span: Span, help: String },
    /// Schema violations, one issue each.
    Invalid { path: String, issues: Vec<Issue> },
    /// The embedded schema itself did not compile; `message` is the
    /// validator's reason.
    Schema { message: String },
}

pub enum ArtifactErrorView {
    Io { path: Seq<char>, message: Seq<char> },
    Json { path: Seq<char>, message: Seq<char>, span: Span },
    UnsupportedVersion { found: Seq<char>, span: Span, help: Seq<char> },
    Invalid { path: Seq<char>, issues: Seq<IssueView> },
    Schema { message: Seq<char> },
}

impl View for ArtifactError {
    type V = ArtifactErrorView;

    open spec fn view(&self) -> ArtifactErrorView {
        match self {
            ArtifactError::Io { path, message } => ArtifactErrorView::Io { path: path@, message: message@ },
            ArtifactError::Json { path, message, span } => ArtifactErrorView::Json {
                path: path@,
                message: message@,
                span: *span,
            },
            ArtifactError::UnsupportedVersion { found, span, help } => ArtifactErrorView::UnsupportedVersion {
                found: found@,
                span: *span,
                help: help@,
            },
            ArtifactError::Schema { message } => ArtifactErrorView::Schema { message: message@ },
            ArtifactError::Invalid { path, issues } => ArtifactErrorView::Invalid {
                path: path@,
                issues: issues_view(issues@),
            },
        }
    }
}

/// The error's one-line summary.
pub open spec fn error_message(e: ArtifactErrorView) -> Seq<char> {
    match e {
        ArtifactErrorView::Io { path, .. } => "failed to read `"@ + path + "`"@,
        ArtifactErrorView::Json { path, message, .. } => "invalid JSON in `"@ + path + "`: "@ + message,
        ArtifactErrorView::UnsupportedVersion { found, .. } => "unsupported artifact schema version: "@ + found,
        ArtifactErrorView::Schema { message } => "the release artifact schema does not compile: "@ + message,
        ArtifactErrorView::Invalid { path, issues } => "`"@ + path + "` is not a valid release artifact ("@
            + codec::dec_text(issues.len()) + " problem"@ + plural_of(issues.len()) + ")"@,
    }
}

/// The issues' lines under the summary: each message, and its help.
pub open spec fn issue_lines(issues: Seq<IssueView>) -> Seq<char>
    decreases issues.len(),
{
    if issues.len() == 0 {
        Seq::empty()
    } else {
        let i = issues.last();
        issue_lines(issues.drop_last()) + "\n  - "@ + i.message + match i.help {
            Some(h) => "\n    help: "@ + h,
            None => Seq::empty(),
        }
    }
}

/// The error and all its issues as plain text.
pub open spec fn plain_text(e: ArtifactErrorView) -> Seq<char> {
    match e {
        ArtifactErrorView::Invalid { issues, .. } => error_message(e) + issue_lines(issues),
        _ => error_message(e),
    }
}

/// The message a document that passed the schema but does not decode gets.
pub open spec fn undecodable_message() -> Seq<char> {
    "the document does not have the shape of a release artifact"@
}

impl ArtifactError {
    /// The error's one-line summary.
    pub fn message(&self) -> (r: String)
        ensures
            r@ == error_message(self@),
    {
        match self {
            ArtifactError::Io { path, .. } => concat3("failed to read `", path.as_str(), "`"),
            ArtifactError::Json { path, message, .. } => {
                let mut out = concat3("invalid JSON in `", path.as_str(), "`: ");
                push_str(&mut out, message.as_str());
                out
            },
            ArtifactError::UnsupportedVersion { found, .. } => concat2(
                "unsupported artifact schema version: ",
                found.as_str(),
            ),
            ArtifactError::Schema { message } => concat2("the release artifact schema does not compile: ", message.as_str()),
            ArtifactError::Invalid { path, issues } => {
                let n = codec::dec_string(issues.len() as u64);
                let mut out = concat3("`", path.as_str(), "` is not a valid release artifact (");
                push_str(&mut out, n.as_str());
                push_str(&mut out, " problem");
                push_str(&mut out, plural(issues.len()));
                push_str(&mut out, ")");
                out
            },
        }
    }

    /// Render the error and all related issues as plain text.
    pub fn render_plain(&self) -> (r: String)
        ensures
            r@ == plain_text(self@),
    {
        let mut out = self.message();
        if let ArtifactError::Invalid { issues, .. } = self {
            let mut i: usize = 0;
            assert(issues_view(issues@).take(0) =~= Seq::<IssueView>::empty());
            while i < issues.len()
                invariant
                    i <= issues@.len(),
                    out@ == error_message(self@) + issue_lines(issues_view(issues@).take(i as int)),
                    self@ matches ArtifactErrorView::Invalid { issues: iv, .. } && iv == issues_view(issues@),
                decreases issues.len() - i,
            {
                assert(issues_view(issues@).take(i + 1).drop_last() =~= issues_view(issues@).take(i as int));
                let ghost before = out@;
                push_str(&mut out, "\n  - ");
                push_str(&mut out, issues[i].message.as_str());
                match &issues[i].help {
                    Some(h) => {
                        push_str(&mut out, "\n    help: ");
                        push_str(&mut out, h.as_str());
                    },
                    None => {},
                }
                assert(out@ =~= error_message(self@) + issue_lines(issues_view(issues@).take(i + 1)));
                i += 1;
            }
            assert(issues_view(issues@).take(i as int) =~= issues_view(issues@));
        }
        out
    }

    /// Number of distinct problems reported.
    pub fn problem_count(&self) -> (r: usize)
        ensures
            r == match self@ {
                ArtifactErrorView::Invalid { issues, .. } => issues.len(),
                _ => 1,
            },
    {
        match self {
            ArtifactError::Invalid { issues, .. } => issues.len(),
            _ => 1,
        }
    }
}

/// The error a text that is not JSON gets.
pub open spec fn syntax_problem(name: Seq<char>, text: Seq<char>, e: json::JsonSyntaxError) -> ArtifactErrorView {
    ArtifactErrorView::Json {
        path: name,
        message: e.message@,
        span: line_col_span(vstd::utf8::encode_utf8(text), e.line as int, e.column as int),
    }
}

/// The help for a `schemaVersion` this build does not speak.
pub open spec fn version_help(found: Json) -> Seq<char> {
    match found {
        Json::Number(n) => match n.as_u64 {
            Some(v) => if v > SCHEMA_VERSION {
                "this artifact speaks protocol v"@ + codec::dec_text(v as nat) + ", but this gh-ship only understands v"@
                    + codec::dec_text(SCHEMA_VERSION as nat) + ". Upgrade gh-ship: `gh extension upgrade ship`"@
            } else {
                "protocol v"@ + codec::dec_text(v as nat) + " is no longer supported; regenerate the artifact with `schemaVersion: "@
                    + codec::dec_text(SCHEMA_VERSION as nat) + "`"@
            },
            None => "`schemaVersion` must be the integer "@ + codec::dec_text(SCHEMA_VERSION as nat) + ", not "@
                + kind_name_of(found),
        },
        _ => "`schemaVersion` must be the integer "@ + codec::dec_text(SCHEMA_VERSION as nat) + ", not "@
            + kind_name_of(found),
    }
}

/// Whether a `schemaVersion` value is the one this build speaks.
pub open spec fn is_known_version(found: Json) -> bool {
    found matches Json::Number(n) && n.as_u64 == Some(SCHEMA_VERSION as u64)
}

/// The pre-flight verdict on `schemaVersion`, before the schema runs: an
/// absent one is left to the schema.
pub open spec fn version_problem(v: Json, text: Seq<char>) -> Option<ArtifactErrorView> {
    match v {
        Json::Object(m) => match codec::member(m@, "schemaVersion"@) {
            Some(found) => if is_known_version(found) {
                None
            } else {
                Some(
                    ArtifactErrorView::UnsupportedVersion {
                        found: compact_of(found),
                        span: match span::as_span(
                            span::located(vstd::utf8::encode_utf8(text), seq![span::StepView::Prop("schemaVersion"@)]),
                        ) {
                            Some(s) => s,
                            None => Span { offset: 0, len: 0 },
                        },
                        help: version_help(found),
                    },
                )
            },
            None => None,
        },
        _ => None,
    }
}

/// The issues of a schema error tree; the root itself when it has no
/// leaves to show.
pub open spec fn tree_issues(e: SchemaError, text: Seq<char>) -> Seq<IssueView> {
    let leaves = leaf_issues(e, text);
    if leaves.len() == 0 {
        seq![IssueView { message: e.kind_text@, span: Span { offset: 0, len: 0 }, label: "here"@, help: None }]
    } else {
        leaves
    }
}

/// The outcome for a document that passed the pre-flight, given the
/// schema's verdict on it.
pub open spec fn checked(
    name: Seq<char>,
    text: Seq<char>,
    v: Json,
    verdict: Option<SchemaError>,
) -> Result<ArtifactView, ArtifactErrorView> {
    match verdict {
        Some(e) => Err(ArtifactErrorView::Invalid { path: name, issues: tree_issues(e, text) }),
        None => match codec::decode_artifact(v) {
            Some(a) => Ok(a),
            None => Err(
                ArtifactErrorView::Json { path: name, message: undecodable_message(), span: Span { offset: 0, len: 0 } },
            ),
        },
    }
}

/// The whole pipeline's outcome on a text, over what `serde_json` and
/// `boon` return.
pub open spec fn validation_of(name: Seq<char>, text: Seq<char>) -> Result<ArtifactView, ArtifactErrorView> {
    match json::json_parsed(text) {
        Err(e) => Err(syntax_problem(name, text, e)),
        Ok(v) => match version_problem(v, text) {
            Some(p) => Err(p),
            None => match schema::schema_verdict(SCHEMA_URL@, schema::RELEASE_V1@, v) {
                Err(m) => Err(ArtifactErrorView::Schema { message: m }),
                Ok(verdict) => checked(name, text, v, verdict),
            },
        },
    }
}

pub open spec fn outcome_view(r: Result<Artifact, ArtifactError>) -> Result<ArtifactView, ArtifactErrorView> {
    match r {
        Ok(a) => Ok(a@),
        Err(e) => Err(e@),
    }
}

/// The error for a text that `serde_json` refused, pointing at where it
/// stopped.
pub fn syntax_error(name: &str, text: &str, e: &json::JsonSyntaxError) -> (r: ArtifactError)
    ensures
        r@ == syntax_problem(name@, text@, *e),
{
    ArtifactError::Json {
        path: owned(name),
        message: e.message.clone(),
        span: line_col_to_span(text, e.line, e.column),
    }
}

/// The version pre-flight: a document whose `schemaVersion` is present
/// but not the one this build speaks is refused with directions.
pub fn preflight(value: &Json, text: &str) -> (r: Result<(), ArtifactError>)
    ensures
        match version_problem(*value, text@) {
            Some(p) => r matches Err(e) && e@ == p,
            None => r is Ok,
        },
{
    let Json::Object(m) = value else {
        return Ok(());
    };
    let found = match codec::find_member(m, "schemaVersion") {
        Some(f) => f,
        None => return Ok(()),
    };
    let known = match found {
        Json::Number(n) => match n.as_u64 {
            Some(v) => v == SCHEMA_VERSION as u64,
            None => false,
        },
        _ => false,
    };
    if known {
        return Ok(());
    }
    let version = codec::dec_string(SCHEMA_VERSION as u64);
    let help = match found {
        Json::Number(num) => match num.as_u64 {
            Some(v) => {
                let vs = codec::dec_string(v);
                if v > SCHEMA_VERSION as u64 {
                    let mut h = concat3("this artifact speaks protocol v", vs.as_str(), ", but this gh-ship only understands v");
                    push_str(&mut h, version.as_str());
                    push_str(&mut h, ". Upgrade gh-ship: `gh extension upgrade ship`");
                    h
                } else {
                    let mut h = concat3("protocol v", vs.as_str(), " is no longer supported; regenerate the artifact with `schemaVersion: ");
                    push_str(&mut h, version.as_str());
                    push_str(&mut h, "`");
                    h
                }
            },
            None => {
                let mut h = concat3("`schemaVersion` must be the integer ", version.as_str(), ", not ");
                push_str(&mut h, kind_name(found));
                h
            },
        },
        _ => {
            let mut h = concat3("`schemaVersion` must be the integer ", version.as_str(), ", not ");
            push_str(&mut h, kind_name(found));
            h
        },
    };
    let path = vec![Step::Prop(owned("schemaVersion"))];
    let ghost pv = span::steps_view(path@);
    assert(pv =~= seq![span::StepView::Prop("schemaVersion"@)]);
    let sp = match span::locate(text, path.as_slice()) {
        Some(s) => s,
        None => Span::new(0, 0),
    };
    Err(ArtifactError::UnsupportedVersion { found: compact(found), span: sp, help })
}

/// The outcome for a document that passed the pre-flight, given what the
/// schema validation returned for it.
pub fn finish(name: &str, text: &str, value: &Json, verdict: Result<(), SchemaError>) -> (r: Result<Artifact, ArtifactError>)
    ensures
        outcome_view(r) == checked(
            name@,
            text@,
            *value,
            match verdict {
                Ok(()) => None,
                Err(e) => Some(e),
            },
        ),
{
    match verdict {
        Err(err) => {
            let mut issues: Vec<Issue> = Vec::new();
            collect(&err, text, &mut issues);
            assert(issues_view(issues@) =~= leaf_issues(err, text@));
            if issues.len() == 0 {
                let ghost before = issues_view(issues@);
                let root = Issue { message: err.kind_text.clone(), span: Span::new(0, 0), label: owned("here"), help: None };
                let ghost rv = root@;
                issues.push(root);
                assert(issues_view(issues@) =~= before.push(rv));
                assert(issues_view(issues@) =~= tree_issues(err, text@));
            } else {
                assert(issues_view(issues@) == tree_issues(err, text@));
            }
            let res = ArtifactError::Invalid { path: owned(name), issues };
            assert(res@ == ArtifactErrorView::Invalid { path: name@, issues: tree_issues(err, text@) });
            Err(res)
        },
        Ok(()) => match codec::artifact_from_json(value) {
            Ok(a) => Ok(a),
            Err(()) => Err(ArtifactError::Json {
                path: owned(name),
                message: owned("the document does not have the shape of a release artifact"),
                span: Span::new(0, 0),
            }),
        },
    }
}

/// Validate artifact text that came from anywhere: a file, a pull request
/// body, a downloaded artifact, stdin.
pub fn validate_str(name: &str, text: &str) -> (r: Result<Artifact, ArtifactError>)
    ensures
        outcome_view(r) == validation_of(name@, text@),
{
    let value = match parse_json(text) {
        Ok(v) => v,
        Err(e) => return Err(syntax_error(name, text, &e)),
    };
    match preflight(&value, text) {
        Ok(()) => {},
        Err(e) => return Err(e),
    }
    match schema::validate(SCHEMA_URL, schema::RELEASE_V1, &value) {
        Err(message) => Err(ArtifactError::Schema { message }),
        Ok(verdict) => finish(name, text, &value, verdict),
    }
}

/// The diagnostic code of each kind of [`ArtifactError`].
pub open spec fn artifact_code(e: ArtifactError) -> Seq<char> {
    match e {
        ArtifactError::Io { .. } => "ship::artifact::io"@,
        ArtifactError::Json { .. } => "ship::artifact::json"@,
        ArtifactError::UnsupportedVersion { .. } => "ship::artifact::version"@,
        ArtifactError::Invalid { .. } => "ship::artifact::invalid"@,
        ArtifactError::Schema { .. } => "ship::artifact::schema"@,
    }
}

impl ArtifactError {
    /// The diagnostic code that names this kind of error.
    pub fn code(&self) -> (r: &'static str)
        ensures
            r@ == artifact_code(*self),
    {
        match self {
            ArtifactError::Io { .. } => "ship::artifact::io",
            ArtifactError::Json { .. } => "ship::artifact::json",
            ArtifactError::UnsupportedVersion { .. } => "ship::artifact::version",
            ArtifactError::Invalid { .. } => "ship::artifact::invalid",
            ArtifactError::Schema { .. } => "ship::artifact::schema",
        }
    }
}

/// The help each artifact error carries.
pub open spec fn artifact_help(e: ArtifactErrorView) -> Option<Seq<char>> {
    match e {
        ArtifactErrorView::Io { .. } => Some(
            "check that the workflow uploaded the `ship-release` artifact and that the path is correct"@,
        ),
        ArtifactErrorView::Json { .. } => Some(
            "`ship.release.json` must be a single JSON object; check for trailing commas or unquoted keys"@,
        ),
        ArtifactErrorView::UnsupportedVersion { help, .. } => Some(help),
        ArtifactErrorView::Invalid { .. } => Some("see https://noirbizarre.github.io/gh-ship/specifications/release-artifact/"@),
        ArtifactErrorView::Schema { .. } => None,
    }
}

/// Where in the artifact text an error points, and what the pointer says.
pub open spec fn artifact_label(e: ArtifactErrorView) -> Option<(Span, Seq<char>)> {
    match e {
        ArtifactErrorView::Json { span, .. } => Some((span, "here"@)),
        ArtifactErrorView::UnsupportedVersion { span, .. } => Some((span, "this version is not supported"@)),
        _ => None,
    }
}

impl ArtifactError {
    /// What to do about the error.
    pub fn help(&self) -> (r: Option<String>)
        ensures
            opt_str_view(r) == artifact_help(self@),
    {
        match self {
            ArtifactError::Io { .. } => Some(
                owned("check that the workflow uploaded the `ship-release` artifact and that the path is correct"),
            ),
            ArtifactError::Json { .. } => Some(
                owned("`ship.release.json` must be a single JSON object; check for trailing commas or unquoted keys"),
            ),
            ArtifactError::UnsupportedVersion { help, .. } => Some(owned(help.as_str())),
            ArtifactError::Invalid { .. } => Some(owned("see https://noirbizarre.github.io/gh-ship/specifications/release-artifact/")),
            ArtifactError::Schema { .. } => None,
        }
    }

    /// The span of the text the error points at, and its label.
    pub fn label(&self) -> (r: Option<(Span, &'static str)>)
        ensures
            match artifact_label(self@) {
                Some((sp, l)) => r matches Some((x, m)) && x == sp && m@ == l,
                None => r is None,
            },
    {
        match self {
            ArtifactError::Json { span, .. } => Some((*span, "here")),
            ArtifactError::UnsupportedVersion { span, .. } => Some((*span, "this version is not supported")),
            _ => None,
        }
    }
}

} // verus!
