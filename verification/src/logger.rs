//! Output rendering.
//!
//! Every function here is pure: it takes a [`Theme`] and returns a
//! `String`. Nothing writes to a stream, captures time, or spins, so the
//! user-facing output reads the same in a terminal, a CI log and a file.

use vstd::prelude::*;

use crate::artifact::codec;
use crate::style::{painted, Paint, Theme};
use crate::text::{concat2, joined_by, owned, push_str};

verus! {

/// The product name as it appears in banners.
pub const TOOL: &'static str = "gh ship";

/// The text of [`action`].
pub open spec fn action_text(colored: bool, verb: Seq<char>, subject: Seq<char>) -> Seq<char> {
    painted(colored, Paint::BlueBold, "▶"@) + " "@ + verb + " "@ + painted(colored, Paint::Bold, subject)
}

/// `▶ <verb> <subject>`
pub fn action(theme: &Theme, verb: &str, subject: &str) -> (r: String)
    ensures
        r@ == action_text(theme.colored_view(), verb@, subject@),
{
    let mut out = theme.running("▶");
    push_str(&mut out, " ");
    push_str(&mut out, verb);
    push_str(&mut out, " ");
    let s = theme.subject(subject);
    push_str(&mut out, s.as_str());
    out
}

/// The text of [`ok`].
pub open spec fn ok_text(colored: bool, message: Seq<char>) -> Seq<char> {
    painted(colored, Paint::GreenBold, "✔"@) + " "@ + message
}

/// `✔ <message>`
pub fn ok(theme: &Theme, message: &str) -> (r: String)
    ensures
        r@ == ok_text(theme.colored_view(), message@),
{
    let mut out = theme.success("✔");
    push_str(&mut out, " ");
    push_str(&mut out, message);
    out
}

/// `✘ <message>`
pub fn fail(theme: &Theme, message: &str) -> (r: String)
    ensures
        r@ == painted(theme.colored_view(), Paint::RedBold, "✘"@) + " "@ + message@,
{
    let mut out = theme.failure("✘");
    push_str(&mut out, " ");
    push_str(&mut out, message);
    out
}

/// `⚠ <message>`
pub fn warn(theme: &Theme, message: &str) -> (r: String)
    ensures
        r@ == warn_text(theme.colored_view(), message@),
{
    let mut out = theme.warning("⚠");
    push_str(&mut out, " ");
    push_str(&mut out, message);
    out
}

/// `- <message>`, dimmed: for no-ops and skips.
pub fn skip(theme: &Theme, message: &str) -> (r: String)
    ensures
        r@ == skip_text(theme.colored_view(), message@),
{
    let mut out = theme.skipped("-");
    push_str(&mut out, " ");
    let m = theme.skipped(message);
    push_str(&mut out, m.as_str());
    out
}

/// An indented `key: value` detail line.
pub fn detail(theme: &Theme, key: &str, value: &str) -> (r: String)
    ensures
        r@ == detail_text(theme.colored_view(), key@, value@),
{
    let k = concat2(key, ":");
    let mut out = owned("  ");
    let kk = theme.key(k.as_str());
    push_str(&mut out, kk.as_str());
    push_str(&mut out, " ");
    push_str(&mut out, value);
    out
}

/// An indented detail line whose value is a URL.
pub fn detail_url(theme: &Theme, key: &str, url: &str) -> (r: String)
    ensures
        r@ == detail_url_text(theme.colored_view(), key@, url@),
{
    let k = concat2(key, ":");
    let mut out = owned("  ");
    let kk = theme.key(k.as_str());
    push_str(&mut out, kk.as_str());
    push_str(&mut out, " ");
    let u = theme.url(url);
    push_str(&mut out, u.as_str());
    out
}

/// The text of [`detail_url`].
pub open spec fn detail_url_text(colored: bool, key: Seq<char>, url: Seq<char>) -> Seq<char> {
    "  "@ + painted(colored, Paint::Dim, key + ":"@) + " "@ + painted(colored, Paint::BlueUnderline, url)
}

/// A value, or `?` when there is none.
pub open spec fn or_unknown(v: Option<Seq<char>>) -> Seq<char> {
    match v {
        Some(s) => s,
        None => "?"@,
    }
}

/// The text of [`release_identity`].
pub open spec fn release_identity_text(colored: bool, version: Option<Seq<char>>, tag: Option<Seq<char>>) -> Seq<char> {
    detail_text(colored, "version"@, or_unknown(version)) + "\n"@ + detail_text(colored, "tag"@, or_unknown(tag))
}

/// What a release is called: its version and its tag, as detail lines.
pub fn release_identity(theme: &Theme, version: Option<&str>, tag: Option<&str>) -> (r: String)
    ensures
        r@ == release_identity_text(
            theme.colored_view(),
            match version {
                Some(v) => Some(v@),
                None => None,
            },
            match tag {
                Some(t) => Some(t@),
                None => None,
            },
        ),
{
    let v = match version {
        Some(v) => v,
        None => "?",
    };
    let t = match tag {
        Some(t) => t,
        None => "?",
    };
    let mut out = detail(theme, "version", v);
    push_str(&mut out, "\n");
    let second = detail(theme, "tag", t);
    push_str(&mut out, second.as_str());
    out
}

/// `n` copies of `s`.
pub open spec fn repeated(s: Seq<char>, n: nat) -> Seq<char>
    decreases n,
{
    if n == 0 {
        Seq::empty()
    } else {
        repeated(s, (n - 1) as nat) + s
    }
}

/// How long the bar after a rule's label is: the label and its framing
/// take 60 columns together, and a long label gets no bar.
pub open spec fn bar_len(label: Seq<char>) -> nat {
    if label.len() + 3 < 60 {
        (60 - (label.len() + 3)) as nat
    } else {
        0
    }
}

/// A horizontal rule framing a rendered PR body.
pub fn rule(theme: &Theme, label: &str) -> (r: String)
    ensures
        r@ == rule_text(theme.colored_view(), label@),
{
    let n = crate::text::char_count(label);
    let width: usize = if n < 57 { 57 - n } else { 0 };
    let mut bar = String::new();
    let mut i: usize = 0;
    while i < width
        invariant
            i <= width,
            bar@ == repeated("─"@, i as nat),
        decreases width - i,
    {
        push_str(&mut bar, "─");
        i += 1;
    }
    let head = concat2("── ", label);
    let mut out = theme.dim(head.as_str());
    push_str(&mut out, " ");
    let b = theme.dim(bar.as_str());
    push_str(&mut out, b.as_str());
    out
}

/// The `nothing to release` outcome: a success, not a warning.
pub fn nothing_to_release(theme: &Theme) -> (r: String)
    ensures
        r@ == painted(theme.colored_view(), Paint::GreenBold, "✔"@) + " "@
            + "nothing to release — the prepare workflow reported no changes"@,
{
    ok(theme, "nothing to release — the prepare workflow reported no changes")
}

/// The text of [`warn`].
pub open spec fn warn_text(colored: bool, message: Seq<char>) -> Seq<char> {
    painted(colored, Paint::Yellow, "⚠"@) + " "@ + message
}

/// The text of [`skip`].
pub open spec fn skip_text(colored: bool, message: Seq<char>) -> Seq<char> {
    painted(colored, Paint::Dim, "-"@) + " "@ + painted(colored, Paint::Dim, message)
}

/// The text of [`detail`].
pub open spec fn detail_text(colored: bool, key: Seq<char>, value: Seq<char>) -> Seq<char> {
    "  "@ + painted(colored, Paint::Dim, key + ":"@) + " "@ + value
}

/// The text of [`rule`].
pub open spec fn rule_text(colored: bool, label: Seq<char>) -> Seq<char> {
    painted(colored, Paint::Dim, "── "@ + label) + " "@ + painted(colored, Paint::Dim, repeated("─"@, bar_len(label)))
}

/// The characters of each of a list of string slices.
pub open spec fn str_views(lines: Seq<&str>) -> Seq<Seq<char>> {
    lines.map_values(|l: &str| l@)
}

/// One line of a note: indented, dimmed.
pub open spec fn note_line(colored: bool, line: Seq<char>) -> Seq<char> {
    "  "@ + painted(colored, Paint::Dim, line)
}

/// The text of [`note`].
pub open spec fn note_text(colored: bool, lines: Seq<Seq<char>>) -> Seq<char> {
    joined_by(lines.map_values(|l: Seq<char>| note_line(colored, l)), "\n"@)
}

/// An explanatory paragraph under a headline, one dimmed line per entry.
pub fn note(theme: &Theme, lines: &[&str]) -> (r: String)
    ensures
        r@ == note_text(theme.colored_view(), str_views(lines@)),
{
    let ghost c = theme.colored_view();
    let ghost want = str_views(lines@).map_values(|l: Seq<char>| note_line(c, l));
    let mut out = String::new();
    let mut i: usize = 0;
    assert(want.take(0) =~= Seq::<Seq<char>>::empty());
    while i < lines.len()
        invariant
            i <= lines@.len(),
            c == theme.colored_view(),
            want == str_views(lines@).map_values(|l: Seq<char>| note_line(c, l)),
            out@ == joined_by(want.take(i as int), "\n"@),
        decreases lines.len() - i,
    {
        assert(want.take(i + 1).drop_last() =~= want.take(i as int));
        if i > 0 {
            push_str(&mut out, "\n");
        }
        push_str(&mut out, "  ");
        let d = theme.dim(lines[i]);
        push_str(&mut out, d.as_str());
        i += 1;
    }
    assert(want.take(i as int) =~= want);
    out
}

/// The text of [`note_url`].
pub open spec fn note_url_text(colored: bool, url: Seq<char>) -> Seq<char> {
    "  "@ + painted(colored, Paint::BlueUnderline, url)
}

/// A link closing a note, indented like it.
pub fn note_url(theme: &Theme, url: &str) -> (r: String)
    ensures
        r@ == note_url_text(theme.colored_view(), url@),
{
    let mut out = owned("  ");
    let u = theme.url(url);
    push_str(&mut out, u.as_str());
    out
}

/// Line `i` of step `n`: the first carries the number, the rest are
/// indented under the text.
pub open spec fn step_line(colored: bool, n: nat, i: int, line: Seq<char>) -> Seq<char> {
    if i == 0 {
        "  "@ + painted(colored, Paint::Bold, codec::dec_text(n) + "."@) + " "@ + line
    } else {
        "     "@ + line
    }
}

/// The text of [`step`].
pub open spec fn step_text(colored: bool, n: nat, lines: Seq<Seq<char>>) -> Seq<char> {
    joined_by(Seq::new(lines.len(), |i: int| step_line(colored, n, i, lines[i])), "\n"@)
}

/// A numbered step of a list of instructions.
pub fn step(theme: &Theme, n: u64, lines: &[&str]) -> (r: String)
    ensures
        r@ == step_text(theme.colored_view(), n as nat, str_views(lines@)),
{
    let ghost c = theme.colored_view();
    let ghost ls = str_views(lines@);
    let ghost want = Seq::new(ls.len(), |i: int| step_line(c, n as nat, i, ls[i]));
    let num = codec::dec_string(n);
    let label = concat2(num.as_str(), ".");
    let mut out = String::new();
    let mut i: usize = 0;
    assert(want.take(0) =~= Seq::<Seq<char>>::empty());
    while i < lines.len()
        invariant
            i <= lines@.len(),
            c == theme.colored_view(),
            ls == str_views(lines@),
            want == Seq::new(ls.len(), |i: int| step_line(c, n as nat, i, ls[i])),
            label@ == codec::dec_text(n as nat) + "."@,
            out@ == joined_by(want.take(i as int), "\n"@),
        decreases lines.len() - i,
    {
        assert(want.take(i + 1).drop_last() =~= want.take(i as int));
        if i > 0 {
            push_str(&mut out, "\n");
            push_str(&mut out, "     ");
        } else {
            push_str(&mut out, "  ");
            let b = theme.subject(label.as_str());
            push_str(&mut out, b.as_str());
            push_str(&mut out, " ");
        }
        push_str(&mut out, lines[i]);
        i += 1;
    }
    assert(want.take(i as int) =~= want);
    out
}

/// A measured span of time: whole seconds and the nanoseconds past them.
#[derive(Debug, Clone, Copy, PartialEq, Eq)]
pub struct Elapsed {
    pub secs: u64,
    /// Less than one second.
    pub nanos: u32,
}

impl Elapsed {
    /// The span of `secs` seconds and `nanos` nanoseconds, carrying whole
    /// seconds out of `nanos`.
    pub fn new(secs: u64, nanos: u32) -> (r: Elapsed)
        requires
            secs + nanos / 1_000_000_000 <= u64::MAX,
        ensures
            r.secs == secs + nanos / 1_000_000_000,
            r.nanos == nanos % 1_000_000_000,
    {
        Elapsed { secs: secs + (nanos / 1_000_000_000) as u64, nanos: nanos % 1_000_000_000 }
    }
}

/// Two decimal digits, zero-padded.
pub open spec fn two_digits(n: nat) -> Seq<char> {
    if n < 10 {
        "0"@ + codec::dec_text(n)
    } else {
        codec::dec_text(n)
    }
}

/// A duration as people read it: minutes and seconds from a minute up,
/// seconds with hundredths from a second up, else milliseconds, else
/// `<1ms`.
pub open spec fn duration_text(secs: nat, nanos: nat) -> Seq<char> {
    if secs >= 60 {
        codec::dec_text(secs / 60) + "m "@ + codec::dec_text(secs % 60) + "s"@
    } else if secs > 0 {
        codec::dec_text(secs) + "."@ + two_digits(nanos / 1_000_000 / 10) + "s"@
    } else if nanos / 1_000_000 > 0 {
        codec::dec_text(nanos / 1_000_000) + "ms"@
    } else {
        "<1ms"@
    }
}

/// Format a duration for humans: deliberately coarse.
pub fn duration(d: Elapsed) -> (r: String)
    requires
        d.nanos < 1_000_000_000,
    ensures
        r@ == duration_text(d.secs as nat, d.nanos as nat),
{
    let secs = d.secs;
    if secs >= 60 {
        let m = codec::dec_string(secs / 60);
        let s = codec::dec_string(secs % 60);
        let mut out = concat2(m.as_str(), "m ");
        push_str(&mut out, s.as_str());
        push_str(&mut out, "s");
        out
    } else if secs > 0 {
        let hundredths = (d.nanos / 1_000_000 / 10) as u64;
        let s = codec::dec_string(secs);
        let mut out = concat2(s.as_str(), ".");
        if hundredths < 10 {
            push_str(&mut out, "0");
        }
        let h = codec::dec_string(hundredths);
        push_str(&mut out, h.as_str());
        push_str(&mut out, "s");
        out
    } else if d.nanos / 1_000_000 > 0 {
        let ms = codec::dec_string((d.nanos / 1_000_000) as u64);
        concat2(ms.as_str(), "ms")
    } else {
        owned("<1ms")
    }
}

} // verus!
