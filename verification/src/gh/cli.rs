//! The GitHub CLI: how a failure of `gh` is read, and when to ask again.
//!
//! Every GitHub interaction goes through `gh`. This module holds the
//! decisions around one invocation: how to show it, how to turn what `gh`
//! printed on failure into a diagnostic that names the likely cause, and
//! whether a failure is worth retrying. Spawning the process and sleeping
//! between attempts belong to the caller, which reports each outcome to
//! [`after_attempt`] and does what it answers.

use vstd::prelude::*;

use crate::artifact::codec;
use crate::text::{self, concat2, concat3, owned, push_str, str_contains, str_eq, str_eq_ignore_ascii_case, str_starts_with};

verus! {

/// How many extra attempts a transient failure earns.
pub const RETRIES: u32 = 3;

/// The delay before the first retry, in seconds. It doubles per attempt.
pub const RETRY_DELAY_SECS: u64 = 1;

/// The ceiling on the retry backoff, in seconds.
pub const RETRY_MAX_DELAY_SECS: u64 = 8;

/// Errors from invoking the GitHub CLI.
#[derive(Debug, Clone)]
pub enum GhError {
    /// `gh` is not installed or not on PATH.
    NotFound,
    NotAuthenticated,
    NoRepository,
    /// `gh` ran and failed; `help` names the likely cause when it is known.
    Failed { args: String, stderr: String, help: Option<String> },
    /// `gh` succeeded but its output could not be read.
    Decode { args: String, message: String },
}

pub enum GhErrorView {
    NotFound,
    NotAuthenticated,
    NoRepository,
    Failed { args: Seq<char>, stderr: Seq<char>, help: Option<Seq<char>> },
    Decode { args: Seq<char>, message: Seq<char> },
}

pub open spec fn opt_view(o: Option<String>) -> Option<Seq<char>> {
    match o {
        Some(s) => Some(s@),
        None => None,
    }
}

impl View for GhError {
    type V = GhErrorView;

    open spec fn view(&self) -> GhErrorView {
        match self {
            GhError::NotFound => GhErrorView::NotFound,
            GhError::NotAuthenticated => GhErrorView::NotAuthenticated,
            GhError::NoRepository => GhErrorView::NoRepository,
            GhError::Failed { args, stderr, help } => GhErrorView::Failed {
                args: args@,
                stderr: stderr@,
                help: opt_view(*help),
            },
            GhError::Decode { args, message } => GhErrorView::Decode { args: args@, message: message@ },
        }
    }
}

/// The one-line summary of a `gh` failure.
pub open spec fn gh_message(e: GhErrorView) -> Seq<char> {
    match e {
        GhErrorView::NotFound => "the GitHub CLI (`gh`) is not installed or not on PATH"@,
        GhErrorView::NotAuthenticated => "not authenticated with GitHub"@,
        GhErrorView::NoRepository => "not inside a GitHub repository"@,
        GhErrorView::Failed { args, stderr, .. } => "`gh "@ + args + "` failed: "@ + stderr,
        GhErrorView::Decode { args, message } => "could not read the output of `gh "@ + args + "`: "@ + message,
    }
}

impl GhError {
    /// The error's one-line summary.
    pub fn message(&self) -> (r: String)
        ensures
            r@ == gh_message(self@),
    {
        match self {
            GhError::NotFound => owned("the GitHub CLI (`gh`) is not installed or not on PATH"),
            GhError::NotAuthenticated => owned("not authenticated with GitHub"),
            GhError::NoRepository => owned("not inside a GitHub repository"),
            GhError::Failed { args, stderr, .. } => {
                let mut out = concat3("`gh ", args.as_str(), "` failed: ");
                push_str(&mut out, stderr.as_str());
                out
            },
            GhError::Decode { args, message } => {
                let mut out = concat3("could not read the output of `gh ", args.as_str(), "`: ");
                push_str(&mut out, message.as_str());
                out
            },
        }
    }
}

/// A configured GitHub CLI invoker.
#[derive(Debug, Clone, Default)]
pub struct Gh {
    /// `OWNER/REPO`, or `None` to let `gh` infer it from the checkout.
    repo: Option<String>,
}

impl Gh {
    pub closed spec fn repo_view(&self) -> Option<Seq<char>> {
        opt_view(self.repo)
    }

    pub fn new(repo: Option<String>) -> (r: Gh)
        ensures
            r.repo_view() == opt_view(repo),
    {
        Gh { repo }
    }

    /// The explicitly configured repository, if any.
    pub fn repo(&self) -> (r: Option<&str>)
        ensures
            match self.repo_view() {
                Some(s) => r matches Some(x) && x@ == s,
                None => r is None,
            },
    {
        match &self.repo {
            Some(r) => Some(r.as_str()),
            None => None,
        }
    }

    /// The repository a scoped invocation appends as `--repo`.
    pub fn scope(&self, scoped: bool) -> (r: Option<&str>)
        ensures
            match (scoped, self.repo_view()) {
                (true, Some(s)) => r matches Some(x) && x@ == s,
                _ => r is None,
            },
    {
        if scoped {
            self.repo()
        } else {
            None
        }
    }
}

// --- Showing an invocation ----------------------------------------------------------

pub open spec fn strings(v: Seq<String>) -> Seq<Seq<char>> {
    v.map_values(|s: String| s@)
}

/// Words separated by single spaces.
pub open spec fn spaced(words: Seq<Seq<char>>) -> Seq<char>
    decreases words.len(),
{
    if words.len() == 0 {
        Seq::empty()
    } else if words.len() == 1 {
        words[0]
    } else {
        spaced(words.drop_last()) + " "@ + words.last()
    }
}

/// The arguments with `--repo` appended when there is one.
pub open spec fn with_repo(args: Seq<Seq<char>>, repo: Option<Seq<char>>) -> Seq<Seq<char>> {
    match repo {
        Some(r) => args.push("--repo"@).push(r),
        None => args,
    }
}

/// How an invocation is shown in messages.
pub fn display_args(args: &[String], repo: Option<&str>) -> (r: String)
    ensures
        r@ == spaced(with_repo(strings(args@), match repo {
            Some(x) => Some(x@),
            None => None,
        })),
{
    let mut parts: Vec<String> = Vec::new();
    let mut j: usize = 0;
    while j < args.len()
        invariant
            j <= args@.len(),
            strings(parts@) == strings(args@).take(j as int),
        decreases args.len() - j,
    {
        let ghost before = strings(parts@);
        let a = args[j].clone();
        let ghost av = a@;
        parts.push(a);
        assert(strings(parts@) =~= before.push(av));
        assert(strings(args@).take(j + 1) =~= strings(args@).take(j as int).push(args@[j as int]@));
        j += 1;
    }
    assert(strings(args@).take(j as int) =~= strings(args@));
    match repo {
        Some(r) => {
            let ghost before = strings(parts@);
            parts.push(owned("--repo"));
            parts.push(owned(r));
            assert(strings(parts@) =~= before.push("--repo"@).push(r@));
        },
        None => {},
    }
    let ghost ws = strings(parts@);
    let mut out = String::new();
    let mut i: usize = 0;
    assert(ws.take(0) =~= Seq::<Seq<char>>::empty());
    while i < parts.len()
        invariant
            i <= parts@.len(),
            ws == strings(parts@),
            out@ == spaced(ws.take(i as int)),
        decreases parts.len() - i,
    {
        assert(ws.take(i + 1).drop_last() =~= ws.take(i as int));
        if i > 0 {
            push_str(&mut out, " ");
        }
        push_str(&mut out, parts[i].as_str());
        i += 1;
    }
    assert(ws.take(i as int) =~= ws);
    out
}

// --- Reading a failure ----------------------------------------------------------------

/// `s.to_lowercase()`: the Unicode lowercase mapping, which does not
/// depend on a locale.
pub uninterp spec fn lowercase_of(s: Seq<char>) -> Seq<char>;

/// `str::to_lowercase`.
#[verifier::external_body]
pub(crate) fn to_lower(s: &str) -> (r: String)
    ensures
        r@ == lowercase_of(s@),
{
    s.to_lowercase()
}

pub open spec fn mentions(s: Seq<char>, p: Seq<char>) -> bool {
    text::contains(s, p)
}

pub open spec fn label_help() -> Seq<char> {
    "the label does not exist in this repository. gh-ship normally creates missing labels, which needs `issues: write`; otherwise create it by hand or remove it from `pull_request.labels` in .github/ship.yml."@
}

pub open spec fn not_found_help() -> Seq<char> {
    "the repository does not exist, or your token cannot see it. On a private repository GitHub returns 404 rather than 401, so this often means missing scopes rather than a typo."@
}

pub open spec fn permission_help() -> Seq<char> {
    "the token lacks the required permissions.\nFine-grained PAT — repository permissions: Actions: read and write, Contents: read and write, Pull requests: read and write, Issues: read and write, Metadata: read.\nClassic PAT — scopes: `repo` and `workflow`.\nDispatching a workflow needs Actions: write specifically; content access alone is not enough.\nSee https://noirbizarre.github.io/gh-ship/workflows/#what-the-token-must-be-allowed-to-do"@
}

pub open spec fn rate_limit_help() -> Seq<char> {
    "you have hit GitHub's API rate limit; wait and retry"@
}

/// The help for a failure, from its lowercased message.
pub open spec fn failure_help(lower: Seq<char>) -> Option<Seq<char>> {
    if mentions(lower, "could not add label"@) || (mentions(lower, "label"@) && mentions(lower, "not found"@)) {
        Some(label_help())
    } else if mentions(lower, "404"@) || mentions(lower, "could not resolve to a repository"@) {
        Some(not_found_help())
    } else if mentions(lower, "403"@) || mentions(lower, "resource not accessible"@) {
        Some(permission_help())
    } else if mentions(lower, "rate limit"@) {
        Some(rate_limit_help())
    } else {
        None
    }
}

/// What a failure of `gh` means, from what it printed: authentication and
/// repository problems are recognised outright; other failures keep their
/// message with the likely cause as help.
pub open spec fn classified(display: Seq<char>, stderr: Seq<char>) -> GhErrorView {
    let lower = lowercase_of(stderr);
    if mentions(lower, "not logged"@) || mentions(lower, "authentication"@) || mentions(lower, "gh auth login"@) {
        GhErrorView::NotAuthenticated
    } else if mentions(lower, "not a git repository"@) || mentions(lower, "could not determine"@) {
        GhErrorView::NoRepository
    } else {
        GhErrorView::Failed { args: display, stderr, help: failure_help(lower) }
    }
}

/// Map a `gh` failure onto a specific error where it can be recognised.
pub fn classify(display: &str, stderr: &str) -> (r: GhError)
    ensures
        r@ == classified(display@, stderr@),
{
    let lower = to_lower(stderr);
    let l = lower.as_str();
    if str_contains(l, "not logged") || str_contains(l, "authentication") || str_contains(l, "gh auth login") {
        return GhError::NotAuthenticated;
    }
    if str_contains(l, "not a git repository") || str_contains(l, "could not determine") {
        return GhError::NoRepository;
    }
    let help = if str_contains(l, "could not add label") || (str_contains(l, "label") && str_contains(l, "not found")) {
        Some(owned(
            "the label does not exist in this repository. gh-ship normally creates missing labels, which needs `issues: write`; otherwise create it by hand or remove it from `pull_request.labels` in .github/ship.yml.",
        ))
    } else if str_contains(l, "404") || str_contains(l, "could not resolve to a repository") {
        Some(owned(
            "the repository does not exist, or your token cannot see it. On a private repository GitHub returns 404 rather than 401, so this often means missing scopes rather than a typo.",
        ))
    } else if str_contains(l, "403") || str_contains(l, "resource not accessible") {
        Some(owned(
            "the token lacks the required permissions.\nFine-grained PAT — repository permissions: Actions: read and write, Contents: read and write, Pull requests: read and write, Issues: read and write, Metadata: read.\nClassic PAT — scopes: `repo` and `workflow`.\nDispatching a workflow needs Actions: write specifically; content access alone is not enough.\nSee https://noirbizarre.github.io/gh-ship/workflows/#what-the-token-must-be-allowed-to-do",
        ))
    } else if str_contains(l, "rate limit") {
        Some(owned("you have hit GitHub's API rate limit; wait and retry"))
    } else {
        None
    };
    GhError::Failed { args: owned(display), stderr: owned(stderr), help }
}

/// The failure to spawn `gh` at all: a missing binary is worth naming,
/// since the fix is to install the GitHub CLI; anything else keeps its
/// message.
pub fn spawn_error(display: &str, not_found: bool, message: &str) -> (r: GhError)
    ensures
        not_found ==> r@ == GhErrorView::NotFound,
        !not_found ==> r@ == (GhErrorView::Failed { args: display@, stderr: message@, help: None }),
{
    if not_found {
        GhError::NotFound
    } else {
        GhError::Failed { args: owned(display), stderr: owned(message), help: None }
    }
}

/// The signs of GitHub having a bad moment rather than giving an answer.
pub open spec fn transient_signs() -> Seq<Seq<char>> {
    seq![
        "http 500"@,
        "http 502"@,
        "http 503"@,
        "http 504"@,
        "bad gateway"@,
        "service unavailable"@,
        "gateway timeout"@,
        "we couldn't respond to your request in time"@,
        "internal server error"@,
        "server error"@,
        "connection reset"@,
        "connection refused"@,
        "timeout awaiting"@,
        "i/o timeout"@,
        "tls handshake timeout"@,
        "unexpected eof"@,
        "temporary failure in name resolution"@,
    ]
}

/// Some sign of `signs` occurs in `lower`.
pub open spec fn any_sign(lower: Seq<char>, signs: Seq<Seq<char>>) -> bool {
    exists|i: int| 0 <= i < signs.len() && mentions(lower, #[trigger] signs[i])
}

/// Whether a failure is transient. Rate limits are not: they clear in
/// minutes, not seconds.
pub open spec fn transient(stderr: Seq<char>) -> bool {
    let lower = lowercase_of(stderr);
    !mentions(lower, "rate limit"@) && any_sign(lower, transient_signs())
}

fn contains_any(lower: &str, signs: &Vec<&str>) -> (r: bool)
    ensures
        r == any_sign(lower@, crate::suggest::str_views(signs@)),
{
    let ghost sv = crate::suggest::str_views(signs@);
    let mut i: usize = 0;
    while i < signs.len()
        invariant
            i <= signs@.len(),
            sv == crate::suggest::str_views(signs@),
            forall|j: int| 0 <= j < i ==> !mentions(lower@, #[trigger] sv[j]),
        decreases signs.len() - i,
    {
        if str_contains(lower, signs[i]) {
            assert(mentions(lower@, sv[i as int]));
            return true;
        }
        i += 1;
    }
    false
}

/// Whether the failure is GitHub having a bad moment rather than a real
/// answer.
pub fn is_transient(stderr: &str) -> (r: bool)
    ensures
        r == transient(stderr@),
{
    let lower = to_lower(stderr);
    if str_contains(lower.as_str(), "rate limit") {
        return false;
    }
    let signs: Vec<&str> = vec![
        "http 500",
        "http 502",
        "http 503",
        "http 504",
        "bad gateway",
        "service unavailable",
        "gateway timeout",
        "we couldn't respond to your request in time",
        "internal server error",
        "server error",
        "connection reset",
        "connection refused",
        "timeout awaiting",
        "i/o timeout",
        "tls handshake timeout",
        "unexpected eof",
        "temporary failure in name resolution",
    ];
    assert(crate::suggest::str_views(signs@) =~= transient_signs());
    contains_any(lower.as_str(), &signs)
}

/// Whether a failure's message, lowercased, carries one of the signs.
pub open spec fn stderr_matches(e: GhErrorView, signs: Seq<Seq<char>>) -> bool {
    match e {
        GhErrorView::Failed { stderr, .. } => any_sign(lowercase_of(stderr), signs),
        _ => false,
    }
}

pub fn matches_stderr(error: &GhError, signs: &Vec<&str>) -> (r: bool)
    ensures
        r == stderr_matches(error@, crate::suggest::str_views(signs@)),
{
    match error {
        GhError::Failed { stderr, .. } => {
            let lower = to_lower(stderr.as_str());
            contains_any(lower.as_str(), signs)
        },
        _ => false,
    }
}

/// Whether the failure means "this does not exist".
pub fn is_not_found(error: &GhError) -> (r: bool)
    ensures
        r == stderr_matches(error@, seq!["404"@, "not found"@, "reference does not exist"@]),
{
    let signs: Vec<&str> = vec!["404", "not found", "reference does not exist"];
    assert(crate::suggest::str_views(signs@) =~= seq!["404"@, "not found"@, "reference does not exist"@]);
    matches_stderr(error, &signs)
}

/// Whether the failure means the thing asked for already exists.
pub fn is_already_exists(error: &GhError) -> (r: bool)
    ensures
        r == stderr_matches(error@, seq!["already exists"@, "422"@, "reference already exists"@]),
{
    let signs: Vec<&str> = vec!["already exists", "422", "reference already exists"];
    assert(crate::suggest::str_views(signs@) =~= seq!["already exists"@, "422"@, "reference already exists"@]);
    matches_stderr(error, &signs)
}

// --- Which invocations only read ---------------------------------------------------------

/// The flags of `gh api` that carry a request body.
pub open spec fn is_body_flag(a: Seq<char>) -> bool {
    a == "-f"@ || a == "-F"@ || a == "--field"@ || a == "--raw-field"@ || a == "--input"@
}

/// Whether the rest of a `gh api` invocation keeps it a `GET`: no body
/// flag, and the last method named (if any) is `GET` in any case.
pub open spec fn api_reads(rest: Seq<Seq<char>>, verb_is_get: bool) -> bool
    decreases rest.len(),
{
    if rest.len() == 0 {
        verb_is_get
    } else {
        let a = rest[0];
        if is_body_flag(a) {
            false
        } else if a == "-X"@ || a == "--method"@ {
            if rest.len() > 1 {
                api_reads(rest.skip(2), text::eq_ignore_ascii_case(rest[1], "GET"@))
            } else {
                false
            }
        } else if text::is_prefix("--method="@, a) {
            api_reads(rest.drop_first(), text::eq_ignore_ascii_case(a.skip(9), "GET"@))
        } else {
            api_reads(rest.drop_first(), verb_is_get)
        }
    }
}

/// The subcommands that only read.
pub open spec fn read_verbs() -> Seq<Seq<char>> {
    seq!["list"@, "view"@, "status"@, "download"@, "diff"@, "checks"@]
}

/// Whether an invocation only reads from GitHub. Unknown shapes count as
/// writes; the verb is read positionally, second.
pub open spec fn read_only(args: Seq<Seq<char>>) -> bool {
    if args.len() == 0 {
        false
    } else if args[0] == "api"@ {
        api_reads(args.skip(1), true)
    } else {
        args.len() > 1 && read_verbs().contains(args[1])
    }
}

fn is_body_flag_str(a: &str) -> (r: bool)
    ensures
        r == is_body_flag(a@),
{
    str_eq(a, "-f") || str_eq(a, "-F") || str_eq(a, "--field") || str_eq(a, "--raw-field") || str_eq(a, "--input")
}

/// Whether an invocation only reads from GitHub.
pub fn is_read_only(args: &[String]) -> (r: bool)
    ensures
        r == read_only(strings(args@)),
{
    let ghost a = strings(args@);
    if args.len() == 0 {
        return false;
    }
    if str_eq(args[0].as_str(), "api") {
        let mut verb_is_get = true;
        let mut i: usize = 1;
        assert(a.skip(1) =~= a.skip(1));
        while i < args.len()
            invariant
                1 <= i <= args@.len(),
                a == strings(args@),
                a[0] == "api"@,
                read_only(a) == api_reads(a.skip(i as int), verb_is_get),
            decreases args.len() - i,
        {
            let arg = args[i].as_str();
            assert(a.skip(i as int)[0] == arg@);
            if is_body_flag_str(arg) {
                return false;
            }
            if str_eq(arg, "-X") || str_eq(arg, "--method") {
                if i + 1 < args.len() {
                    verb_is_get = str_eq_ignore_ascii_case(args[i + 1].as_str(), "GET");
                    assert(a.skip(i as int)[1] == args@[i + 1]@);
                    assert(a.skip(i as int).skip(2) =~= a.skip(i + 2));
                    i += 2;
                } else {
                    return false;
                }
            } else {
                if str_starts_with(arg, "--method=") {
                    let cs = text::chars_of(arg);
                    proof {
                        reveal_strlit("--method=");
                    }
                    let method = text::string_of_range(cs.as_slice(), 9, cs.len());
                    assert(method@ =~= arg@.skip(9));
                    verb_is_get = str_eq_ignore_ascii_case(method.as_str(), "GET");
                }
                assert(a.skip(i as int).drop_first() =~= a.skip(i + 1));
                i += 1;
            }
        }
        assert(a.skip(i as int).len() == 0);
        return verb_is_get;
    }
    if args.len() < 2 {
        return false;
    }
    let verb = args[1].as_str();
    assert(a[1] == verb@);
    assert(a[0] != "api"@);
    let reads: Vec<&str> = vec!["list", "view", "status", "download", "diff", "checks"];
    assert(crate::suggest::str_views(reads@) =~= read_verbs());
    let mut k: usize = 0;
    while k < reads.len()
        invariant
            k <= reads@.len(),
            a == strings(args@),
            a.len() >= 2,
            a[1] == verb@,
            a[0] != "api"@,
            crate::suggest::str_views(reads@) == read_verbs(),
            forall|j: int| 0 <= j < k ==> read_verbs()[j] != verb@,
        decreases reads.len() - k,
    {
        if str_eq(verb, reads[k]) {
            assert(read_verbs()[k as int] == verb@);
            assert(read_verbs().contains(a[1]));
            return true;
        }
        k += 1;
    }
    assert(a[1] == verb@);
    false
}

/// Whether a failed invocation is worth attempting again: it must only
/// read, and the failure must be transient. Retrying a write could create
/// a duplicate.
pub fn is_retryable(args: &[String], stderr: &str) -> (r: bool)
    ensures
        r == (read_only(strings(args@)) && transient(stderr@)),
{
    is_read_only(args) && is_transient(stderr)
}

/// The note an error that was already retried carries.
pub open spec fn retry_note(attempt: nat) -> Seq<char> {
    "this looked transient, so it was retried "@ + codec::dec_text(attempt) + " more time"@ + (if attempt == 1 {
        ""@
    } else {
        "s"@
    }) + " before giving up"@
}

/// An exhausted failure, noting that it was retried.
pub open spec fn retried_view(e: GhErrorView, attempt: nat) -> GhErrorView {
    if attempt == 0 {
        e
    } else {
        match e {
            GhErrorView::Failed { args, stderr, help } => GhErrorView::Failed {
                args,
                stderr,
                help: Some(match help {
                    Some(h) => h + "\n"@ + retry_note(attempt),
                    None => retry_note(attempt),
                }),
            },
            _ => e,
        }
    }
}

/// Note on an exhausted error that it was already retried.
pub fn retried(error: GhError, attempt: u32) -> (r: GhError)
    ensures
        r@ == retried_view(error@, attempt as nat),
{
    if attempt == 0 {
        return error;
    }
    match error {
        GhError::Failed { args, stderr, help } => {
            let n = codec::dec_string(attempt as u64);
            let mut note = concat3("this looked transient, so it was retried ", n.as_str(), " more time");
            push_str(&mut note, if attempt == 1 { "" } else { "s" });
            push_str(&mut note, " before giving up");
            let help = match help {
                Some(h) => {
                    let mut out = h;
                    push_str(&mut out, "\n");
                    push_str(&mut out, note.as_str());
                    out
                },
                None => note,
            };
            GhError::Failed { args, stderr, help: Some(help) }
        },
        other => other,
    }
}

// --- The retry loop, as decisions ---------------------------------------------------------

/// What one attempt at running `gh` gave.
#[derive(Debug)]
pub enum Attempt {
    /// `gh` could not be spawned.
    SpawnFailed { not_found: bool, message: String },
    /// `gh` exited successfully; its output, or why it is not UTF-8.
    Succeeded { stdout: Result<String, String> },
    /// `gh` exited with a failure; what it printed on stderr, trimmed.
    Failed { stderr: String },
}

/// What to do after an attempt.
#[derive(Debug)]
pub enum Next {
    /// The invocation is over, with this outcome.
    Done(Result<String, GhError>),
    /// Sleep `delay_secs`, then try again with `next_delay_secs` as the
    /// following delay.
    Retry { delay_secs: u64, next_delay_secs: u64 },
}

/// The following backoff delay: doubled, capped.
pub open spec fn next_delay(delay: u64) -> u64 {
    if delay * 2 <= RETRY_MAX_DELAY_SECS {
        (delay * 2) as u64
    } else {
        RETRY_MAX_DELAY_SECS
    }
}

/// Decide what follows attempt number `attempt` (from 0) of `attempts`
/// extra ones allowed. A spawn failure is never retried; a successful run
/// is over; a failure is retried only while attempts remain and only when
/// the invocation reads and the failure is transient.
pub fn after_attempt(
    args: &[String],
    display: &str,
    attempt: u32,
    attempts: u32,
    delay_secs: u64,
    outcome: Attempt,
) -> (r: Next)
    ensures
        !read_only(strings(args@)) ==> r is Done,
        match outcome {
            Attempt::SpawnFailed { not_found, message } => r matches Next::Done(Err(e)) && e@ == (if not_found {
                GhErrorView::NotFound
            } else {
                GhErrorView::Failed { args: display@, stderr: message@, help: None }
            }),
            Attempt::Succeeded { stdout } => match stdout {
                Ok(s) => r matches Next::Done(Ok(x)) && x@ == s@,
                Err(m) => r matches Next::Done(Err(e)) && e@ == (GhErrorView::Decode { args: display@, message: m@ }),
            },
            Attempt::Failed { stderr } => if attempt < attempts && read_only(strings(args@)) && transient(stderr@) {
                r matches Next::Retry { delay_secs: d, next_delay_secs: n } && d == delay_secs && n == next_delay(delay_secs)
            } else {
                r matches Next::Done(Err(e)) && e@ == retried_view(classified(display@, stderr@), attempt as nat)
            },
        },
{
    match outcome {
        Attempt::SpawnFailed { not_found, message } => Next::Done(Err(spawn_error(display, not_found, message.as_str()))),
        Attempt::Succeeded { stdout } => match stdout {
            Ok(s) => Next::Done(Ok(s)),
            Err(m) => Next::Done(Err(GhError::Decode { args: owned(display), message: m })),
        },
        Attempt::Failed { stderr } => {
            if attempt < attempts && is_retryable(args, stderr.as_str()) {
                let next = if delay_secs <= RETRY_MAX_DELAY_SECS / 2 {
                    delay_secs * 2
                } else {
                    RETRY_MAX_DELAY_SECS
                };
                Next::Retry { delay_secs, next_delay_secs: next }
            } else {
                Next::Done(Err(retried(classify(display, stderr.as_str()), attempt)))
            }
        },
    }
}

/// A whole-seconds setting read from the environment: `None` when unset
/// or not a number.
pub fn env_duration(value: Option<&str>) -> (r: Option<u64>)
    ensures
        r == match value {
            Some(v) => crate::conv::u64_of(v@),
            None => None,
        },
{
    match value {
        Some(v) => crate::conv::parse_u64(v),
        None => None,
    }
}

/// The initial retry delay in seconds: the setting when it reads,
/// otherwise one second.
pub fn retry_delay(value: Option<&str>) -> (r: u64)
    ensures
        r == match env_duration_spec(value) {
            Some(v) => v,
            None => RETRY_DELAY_SECS,
        },
{
    match env_duration(value) {
        Some(v) => v,
        None => RETRY_DELAY_SECS,
    }
}

pub open spec fn env_duration_spec(value: Option<&str>) -> Option<u64> {
    match value {
        Some(v) => crate::conv::u64_of(v@),
        None => None,
    }
}

/// The retry count: the setting when it reads as a number, else
/// [`RETRIES`]. `0` disables retrying.
pub fn retries(value: Option<&str>) -> (r: u32)
    ensures
        r == match value {
            Some(v) => match crate::conv::u32_in_radix(v@, 10) {
                Some(n) => n,
                None => RETRIES,
            },
            None => RETRIES,
        },
{
    match value {
        Some(v) => match crate::conv::parse_u32_radix(v, 10) {
            Some(n) => n,
            None => RETRIES,
        },
        None => RETRIES,
    }
}

/// The diagnostic code of each kind of [`GhError`].
pub open spec fn gh_code(e: GhError) -> Seq<char> {
    match e {
        GhError::NotFound => "ship::gh::missing"@,
        GhError::NotAuthenticated => "ship::gh::auth"@,
        GhError::NoRepository => "ship::gh::no_repo"@,
        GhError::Failed { .. } => "ship::gh::failed"@,
        GhError::Decode { .. } => "ship::gh::decode"@,
    }
}

impl GhError {
    /// The diagnostic code that names this kind of error.
    pub fn code(&self) -> (r: &'static str)
        ensures
            r@ == gh_code(*self),
    {
        match self {
            GhError::NotFound => "ship::gh::missing",
            GhError::NotAuthenticated => "ship::gh::auth",
            GhError::NoRepository => "ship::gh::no_repo",
            GhError::Failed { .. } => "ship::gh::failed",
            GhError::Decode { .. } => "ship::gh::decode",
        }
    }
}

} // verus!
