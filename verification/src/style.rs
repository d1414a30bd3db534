//! Terminal styling.
//!
//! Every colour decision lives behind a [`Theme`]: when it is plain, every
//! helper returns its input unchanged, so the same formatting code runs in
//! both modes. Output is a single append-only stream, with no spinners.

use vstd::prelude::*;

use owo_colors::{OwoColorize, Style};

use crate::text::{owned, str_eq};

verus! {

/// One of the styles the palette uses.
#[derive(Debug, Clone, Copy, PartialEq, Eq)]
pub enum Paint {
    Dim,
    Bold,
    GreenBold,
    RedBold,
    BlueBold,
    Yellow,
    BlueUnderline,
}

/// The escape sequence that opens a style, as `owo-colors` writes it: the
/// colour code first, then the effects, separated by `;`.
pub open spec fn ansi_prefix(p: Paint) -> Seq<char> {
    match p {
        Paint::Dim => "\x1b[2m"@,
        Paint::Bold => "\x1b[1m"@,
        Paint::GreenBold => "\x1b[32;1m"@,
        Paint::RedBold => "\x1b[31;1m"@,
        Paint::BlueBold => "\x1b[34;1m"@,
        Paint::Yellow => "\x1b[33m"@,
        Paint::BlueUnderline => "\x1b[34;4m"@,
    }
}

/// `s` in style `p`: the style's prefix, the text, and the reset.
pub open spec fn ansi(p: Paint, s: Seq<char>) -> Seq<char> {
    ansi_prefix(p) + s + "\x1b[0m"@
}

/// `s.style(style).to_string()` with `owo-colors`, for the style `p`
/// names.
#[verifier::external_body]
fn styled(s: &str, p: Paint) -> (r: String)
    ensures
        r@ == ansi(p, s@),
{
    let style = match p {
        Paint::Dim => Style::new().dimmed(),
        Paint::Bold => Style::new().bold(),
        Paint::GreenBold => Style::new().green().bold(),
        Paint::RedBold => Style::new().red().bold(),
        Paint::BlueBold => Style::new().blue().bold(),
        Paint::Yellow => Style::new().yellow(),
        Paint::BlueUnderline => Style::new().blue().underline(),
    };
    s.style(style).to_string()
}

/// Visual theme for log output: a flag plus a small palette.
#[derive(Debug, Clone, Copy)]
pub struct Theme {
    colored: bool,
}

/// Text in a style under a theme: unchanged when the theme is plain.
pub open spec fn painted(colored: bool, p: Paint, s: Seq<char>) -> Seq<char> {
    if colored {
        ansi(p, s)
    } else {
        s
    }
}

impl Theme {
    pub closed spec fn colored_view(&self) -> bool {
        self.colored
    }

    /// A theme that emits plain text only: byte-for-byte stable output.
    pub fn plain() -> (r: Theme)
        ensures
            !r.colored_view(),
    {
        Theme { colored: false }
    }

    /// A theme that always emits ANSI escapes.
    pub fn colored() -> (r: Theme)
        ensures
            r.colored_view(),
    {
        Theme { colored: true }
    }

    /// The theme for the given colour decision.
    pub fn with_color(colored: bool) -> (r: Theme)
        ensures
            r.colored_view() == colored,
    {
        Theme { colored }
    }

    /// Whether this theme emits ANSI escapes.
    pub fn is_colored(&self) -> (r: bool)
        ensures
            r == self.colored_view(),
    {
        self.colored
    }

    fn paint(&self, s: &str, p: Paint) -> (r: String)
        ensures
            r@ == painted(self.colored_view(), p, s@),
    {
        if self.colored {
            styled(s, p)
        } else {
            owned(s)
        }
    }

    /// Dimmed: separators and ancillary detail.
    pub fn dim(&self, s: &str) -> (r: String)
        ensures
            r@ == painted(self.colored_view(), Paint::Dim, s@),
    {
        self.paint(s, Paint::Dim)
    }

    /// Bold: the subject being acted on.
    pub fn subject(&self, s: &str) -> (r: String)
        ensures
            r@ == painted(self.colored_view(), Paint::Bold, s@),
    {
        self.paint(s, Paint::Bold)
    }

    /// Green and bold: success.
    pub fn success(&self, s: &str) -> (r: String)
        ensures
            r@ == painted(self.colored_view(), Paint::GreenBold, s@),
    {
        self.paint(s, Paint::GreenBold)
    }

    /// Red and bold: failure.
    pub fn failure(&self, s: &str) -> (r: String)
        ensures
            r@ == painted(self.colored_view(), Paint::RedBold, s@),
    {
        self.paint(s, Paint::RedBold)
    }

    /// Blue and bold: in progress.
    pub fn running(&self, s: &str) -> (r: String)
        ensures
            r@ == painted(self.colored_view(), Paint::BlueBold, s@),
    {
        self.paint(s, Paint::BlueBold)
    }

    /// Yellow: warnings.
    pub fn warning(&self, s: &str) -> (r: String)
        ensures
            r@ == painted(self.colored_view(), Paint::Yellow, s@),
    {
        self.paint(s, Paint::Yellow)
    }

    /// Dimmed: skipped, no-op.
    pub fn skipped(&self, s: &str) -> (r: String)
        ensures
            r@ == painted(self.colored_view(), Paint::Dim, s@),
    {
        self.paint(s, Paint::Dim)
    }

    /// Blue and underlined: a URL.
    pub fn url(&self, s: &str) -> (r: String)
        ensures
            r@ == painted(self.colored_view(), Paint::BlueUnderline, s@),
    {
        self.paint(s, Paint::BlueUnderline)
    }

    /// Dimmed: a key in a key/value listing.
    pub fn key(&self, s: &str) -> (r: String)
        ensures
            r@ == painted(self.colored_view(), Paint::Dim, s@),
    {
        self.paint(s, Paint::Dim)
    }
}

impl Default for Theme {
    fn default() -> (r: Theme)
        ensures
            !r.colored_view(),
    {
        Theme::plain()
    }
}

/// A variable that is set: present and not empty.
pub open spec fn set_value(v: Option<Seq<char>>) -> Option<Seq<char>> {
    match v {
        Some(s) => if s.len() > 0 {
            Some(s)
        } else {
            None
        },
        None => None,
    }
}

pub open spec fn opt_str(v: Option<&str>) -> Option<Seq<char>> {
    match v {
        Some(s) => Some(s@),
        None => None,
    }
}

/// Whether to emit ANSI escapes. Highest rule first: `NO_COLOR` set turns
/// colour off; `CLICOLOR=0` turns it off; `CLICOLOR_FORCE` set and not `0`
/// turns it on; `TERM=dumb` turns it off; `GITHUB_ACTIONS=true` turns it
/// on; otherwise a terminal decides. An empty value counts as unset,
/// except for `TERM`.
pub open spec fn colour_decision(
    no_color: Option<Seq<char>>,
    clicolor: Option<Seq<char>>,
    clicolor_force: Option<Seq<char>>,
    term: Option<Seq<char>>,
    github_actions: Option<Seq<char>>,
    is_tty: bool,
) -> bool {
    if set_value(no_color) is Some {
        false
    } else if set_value(clicolor) == Some("0"@) {
        false
    } else if set_value(clicolor_force) is Some && set_value(clicolor_force) != Some("0"@) {
        true
    } else if term == Some("dumb"@) {
        false
    } else if set_value(github_actions) == Some("true"@) {
        true
    } else {
        is_tty
    }
}

fn is_set(v: Option<&str>) -> (r: bool)
    ensures
        r == (set_value(opt_str(v)) is Some),
{
    match v {
        Some(s) => !s.is_empty(),
        None => false,
    }
}

fn set_to(v: Option<&str>, value: &str) -> (r: bool)
    ensures
        r == (set_value(opt_str(v)) == Some(value@)),
{
    match v {
        Some(s) => !s.is_empty() && str_eq(s, value),
        None => false,
    }
}

/// Decide whether to emit ANSI escapes, from the environment's values and
/// whether stderr is a terminal; see [`colour_decision`] for the rules.
pub fn decide(
    no_color: Option<&str>,
    clicolor: Option<&str>,
    clicolor_force: Option<&str>,
    term: Option<&str>,
    github_actions: Option<&str>,
    is_tty: bool,
) -> (r: bool)
    ensures
        set_value(opt_str(no_color)) is Some ==> !r,
        r == colour_decision(
            opt_str(no_color),
            opt_str(clicolor),
            opt_str(clicolor_force),
            opt_str(term),
            opt_str(github_actions),
            is_tty,
        ),
{
    if is_set(no_color) {
        return false;
    }
    if set_to(clicolor, "0") {
        return false;
    }
    if is_set(clicolor_force) && !set_to(clicolor_force, "0") {
        return true;
    }
    let dumb = match term {
        Some(t) => str_eq(t, "dumb"),
        None => false,
    };
    if dumb {
        return false;
    }
    if set_to(github_actions, "true") {
        return true;
    }
    is_tty
}

} // verus!
