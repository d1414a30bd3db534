//! What can go wrong between a run succeeding and gh-ship holding its
//! artifact: transport, not the artifact itself.

use vstd::prelude::*;

use crate::artifact::{ARTIFACT_FILE, ARTIFACT_NAME};
use crate::branches::{self, line_outcome, release_branch_outcome, resolved, BranchError, BranchErrorView, Line, LineView};
use crate::config::Config;
use crate::detect::{Detected, Origin};
use crate::logger::{duration, duration_text, Elapsed};
use crate::text::{self, concat2, concat3, owned, push_str, trim, trimmed};

verus! {

/// Everything that can go wrong fetching the artifact of a run.
#[derive(Debug, Clone)]
pub enum ArtifactFetchError {
    /// A temporary directory could not be created; `message` is the
    /// system's.
    Tempdir { message: String },
    Download { message: String, help: String },
    MissingFile { help: String },
    /// The downloaded file could not be read; `message` is the system's.
    Read { message: String },
}

pub open spec fn fetch_error_message(e: ArtifactFetchError) -> Seq<char> {
    match e {
        ArtifactFetchError::Tempdir { message } => "could not create a temporary directory: "@ + message@,
        ArtifactFetchError::Download { message, .. } => "could not download the `"@ + ARTIFACT_NAME@
            + "` artifact: "@ + message@,
        ArtifactFetchError::MissingFile { .. } => "`"@ + ARTIFACT_FILE@ + "` not found in the artifact"@,
        ArtifactFetchError::Read { message } => "could not read the downloaded `"@ + ARTIFACT_FILE@ + "`: "@
            + message@,
    }
}

pub open spec fn fetch_error_help(e: ArtifactFetchError) -> Option<Seq<char>> {
    match e {
        ArtifactFetchError::Download { help, .. } => Some(help@),
        ArtifactFetchError::MissingFile { help } => Some(help@),
        _ => None,
    }
}

impl ArtifactFetchError {
    pub fn message(&self) -> (r: String)
        ensures
            r@ == fetch_error_message(*self),
    {
        match self {
            ArtifactFetchError::Tempdir { message } => concat2("could not create a temporary directory: ", message.as_str()),
            ArtifactFetchError::Download { message, .. } => {
                let mut out = concat3("could not download the `", ARTIFACT_NAME, "` artifact: ");
                push_str(&mut out, message.as_str());
                out
            },
            ArtifactFetchError::MissingFile { .. } => concat3("`", ARTIFACT_FILE, "` not found in the artifact"),
            ArtifactFetchError::Read { message } => {
                let mut out = concat3("could not read the downloaded `", ARTIFACT_FILE, "`: ");
                push_str(&mut out, message.as_str());
                out
            },
        }
    }

    pub fn help(&self) -> (r: Option<String>)
        ensures
            match fetch_error_help(*self) {
                Some(h) => r matches Some(x) && x@ == h,
                None => r is None,
            },
    {
        match self {
            ArtifactFetchError::Download { help, .. } => Some(help.clone()),
            ArtifactFetchError::MissingFile { help } => Some(help.clone()),
            _ => None,
        }
    }
}

/// Where the release-artifact protocol is specified.
pub const ARTIFACT_SPEC_URL: &'static str = "https://noirbizarre.github.io/gh-ship/specifications/release-artifact/";

/// A download of the run's artifact failed: the run succeeded but did not
/// upload the artifact under the protocol's name.
pub fn download_failed(message: &str, run_url: &str) -> (r: ArtifactFetchError)
    ensures
        r is Download,
        r->Download_message@ == message@,
        r->Download_help@ == "the run succeeded but produced no `"@ + ARTIFACT_NAME@
            + "` artifact. A conforming workflow must upload `"@ + ARTIFACT_FILE@ + "` under that name — see "@
            + ARTIFACT_SPEC_URL@ + ". Run: "@ + run_url@,
{
    let mut help = concat3("the run succeeded but produced no `", ARTIFACT_NAME, "` artifact. A conforming workflow must upload `");
    push_str(&mut help, ARTIFACT_FILE);
    push_str(&mut help, "` under that name — see ");
    push_str(&mut help, ARTIFACT_SPEC_URL);
    push_str(&mut help, ". Run: ");
    push_str(&mut help, run_url);
    ArtifactFetchError::Download { message: owned(message), help }
}

/// The artifact was downloaded, but does not hold the protocol's file.
pub fn missing_file(run_url: &str) -> (r: ArtifactFetchError)
    ensures
        r is MissingFile,
        r->MissingFile_help@ == "the `"@ + ARTIFACT_NAME@ + "` artifact does not contain `"@ + ARTIFACT_FILE@
            + "`. The filename is part of the protocol. Run: "@ + run_url@,
{
    let mut help = concat3("the `", ARTIFACT_NAME, "` artifact does not contain `");
    push_str(&mut help, ARTIFACT_FILE);
    push_str(&mut help, "`. The filename is part of the protocol. Run: ");
    push_str(&mut help, run_url);
    ArtifactFetchError::MissingFile { help }
}

/// The warning a dispatch that only went through thanks to the `ship_id`
/// shim earns.
pub fn legacy_ship_id_warning(slug: &str) -> (r: String)
    ensures
        r@ == "`"@ + slug@
            + "` still requires a `ship_id` input; gh-ship supplied a placeholder. Remove the input and the `ship:` marker from `run-name` — they are no longer used, and this compatibility shim goes away next release."@,
{
    concat3(
        "`",
        slug,
        "` still requires a `ship_id` input; gh-ship supplied a placeholder. Remove the input and the `ship:` marker from `run-name` — they are no longer used, and this compatibility shim goes away next release.",
    )
}

/// The base branch a release line is resolved from, and how it was found.
///
/// Without `branches` the base branch is a setting with one value, the
/// repository default, unless `--base` says otherwise; detection is not
/// consulted, since it would retarget the Release PR whenever someone is
/// on a feature branch. With `branches` it is an input that selects a
/// line: `detected` (the flag, CI, or the checkout) when there is one,
/// else the default branch.
pub open spec fn base_of(has_branches: bool, flag: Option<Seq<char>>, detected: Option<(Seq<char>, Origin)>, default_branch: Seq<char>) -> (Seq<char>, Origin) {
    if !has_branches {
        match flag {
            Some(f) if trim(f).len() > 0 => (trim(f), Origin::Flag),
            _ => (default_branch, Origin::Default),
        }
    } else {
        match detected {
            Some(d) => d,
            None => (default_branch, Origin::Default),
        }
    }
}

/// Without `branches`, neither the checked-out branch nor what CI says
/// ever retargets the Release PR: only `--base` and the repository
/// default decide.
pub proof fn lemma_single_line_ignores_detection(
    flag: Option<Seq<char>>,
    seen: Option<(Seq<char>, Origin)>,
    other: Option<(Seq<char>, Origin)>,
    default_branch: Seq<char>,
)
    ensures
        base_of(false, flag, seen, default_branch) == base_of(false, flag, other, default_branch),
{
}

pub fn base_of_line(has_branches: bool, flag: Option<&str>, detected: Option<Detected>, default_branch: &str) -> (r: (String, Origin))
    ensures
        (r.0@, r.1) == base_of(
            has_branches,
            match flag {
                Some(f) => Some(f@),
                None => None,
            },
            match detected {
                Some(d) => Some((d.branch@, d.origin)),
                None => None,
            },
            default_branch@,
        ),
{
    if !has_branches {
        if let Some(f) = flag {
            let t = trimmed(f);
            if text::char_count(t.as_str()) > 0 {
                return (t, Origin::Flag);
            }
        }
        return (owned(default_branch), Origin::Default);
    }
    match detected {
        Some(d) => (d.branch, d.origin),
        None => (owned(default_branch), Origin::Default),
    }
}

/// The release line of `base`: the single line without `branches`, the
/// line `base` selects with it.
pub open spec fn line_of(config: Config, base: Seq<char>) -> Result<LineView, BranchErrorView> {
    if config.settings.branches@.len() > 0 {
        resolved(config, base)
    } else {
        match release_branch_outcome(config, base, base) {
            Ok(release) => Ok(LineView { base, release, entry: None }),
            Err(e) => Err(BranchErrorView::Template(e)),
        }
    }
}

/// Resolve the release line this invocation works on, and how its base
/// branch was found.
pub fn resolve_line(config: &Config, flag: Option<&str>, detected: Option<Detected>, default_branch: &str) -> (r: Result<(Line, Origin), BranchError>)
    ensures
        ({
            let (base, origin) = base_of(
                config.settings.branches@.len() > 0,
                match flag {
                    Some(f) => Some(f@),
                    None => None,
                },
                match detected {
                    Some(d) => Some((d.branch@, d.origin)),
                    None => None,
                },
                default_branch@,
            );
            &&& line_outcome(match r {
                Ok((l, _)) => Ok(l),
                Err(e) => Err(e),
            }) == line_of(*config, base)
            &&& r matches Ok((_, o)) ==> o == origin
        }),
{
    let has = config.has_branches();
    let (base, origin) = base_of_line(has, flag, detected, default_branch);
    let line = if has {
        branches::resolve(config, base.as_str())
    } else {
        branches::single(config, base.as_str())
    };
    match line {
        Ok(l) => Ok((l, origin)),
        Err(e) => Err(e),
    }
}

/// How often a search for the dispatched run says it is still waiting,
/// and how often a wait for a run says it is still running, in seconds.
pub const SEARCH_NOTE_EVERY_SECS: u64 = 15;
pub const RUN_NOTE_EVERY_SECS: u64 = 30;

/// What a search for the dispatched run says between two polls: that it
/// is waiting, the first time; then, on every multiple of fifteen seconds,
/// how long it has been waiting.
pub fn search_note(announced: bool, elapsed: Elapsed) -> (r: Option<String>)
    requires
        elapsed.nanos < 1_000_000_000,
    ensures
        !announced ==> (r matches Some(x) && x@ == "waiting for the run to appear"@),
        announced && elapsed.secs % SEARCH_NOTE_EVERY_SECS == 0 ==> (r matches Some(x) && x@ == "still waiting ("@
            + duration_text(elapsed.secs as nat, elapsed.nanos as nat) + ")"@),
        announced && elapsed.secs % SEARCH_NOTE_EVERY_SECS != 0 ==> r is None,
{
    if !announced {
        return Some(owned("waiting for the run to appear"));
    }
    if elapsed.secs % SEARCH_NOTE_EVERY_SECS == 0 {
        let d = duration(elapsed);
        return Some(concat3("still waiting (", d.as_str(), ")"));
    }
    None
}

/// What a wait for a run says between two polls.
#[derive(Debug, Clone)]
pub enum RunNote {
    /// The status changed: report the new one.
    Status,
    /// Nothing changed, on a multiple of thirty seconds: how long it has run.
    StillRunning(String),
    Quiet,
}

/// Report transitions rather than every poll: a line per state change is
/// information, a line per poll is noise.
pub fn run_note(last_status: &str, status: &str, elapsed: Elapsed) -> (r: RunNote)
    requires
        elapsed.nanos < 1_000_000_000,
    ensures
        last_status@ != status@ ==> r is Status,
        last_status@ == status@ && elapsed.secs % RUN_NOTE_EVERY_SECS == 0 ==> (r matches RunNote::StillRunning(x)
            && x@ == "still running ("@ + duration_text(elapsed.secs as nat, elapsed.nanos as nat) + ")"@),
        last_status@ == status@ && elapsed.secs % RUN_NOTE_EVERY_SECS != 0 ==> r is Quiet,
{
    if !crate::text::str_eq(last_status, status) {
        return RunNote::Status;
    }
    if elapsed.secs % RUN_NOTE_EVERY_SECS == 0 {
        let d = duration(elapsed);
        return RunNote::StillRunning(concat3("still running (", d.as_str(), ")"));
    }
    RunNote::Quiet
}

/// The diagnostic code of each kind of [`ArtifactFetchError`].
pub open spec fn fetch_code(e: ArtifactFetchError) -> Seq<char> {
    match e {
        ArtifactFetchError::Tempdir { .. } => "ship::artifact::tempdir"@,
        ArtifactFetchError::Download { .. } => "ship::artifact::download"@,
        ArtifactFetchError::MissingFile { .. } => "ship::artifact::missing_file"@,
        ArtifactFetchError::Read { .. } => "ship::artifact::read"@,
    }
}

impl ArtifactFetchError {
    /// The diagnostic code that names this kind of error.
    pub fn code(&self) -> (r: &'static str)
        ensures
            r@ == fetch_code(*self),
    {
        match self {
            ArtifactFetchError::Tempdir { .. } => "ship::artifact::tempdir",
            ArtifactFetchError::Download { .. } => "ship::artifact::download",
            ArtifactFetchError::MissingFile { .. } => "ship::artifact::missing_file",
            ArtifactFetchError::Read { .. } => "ship::artifact::read",
        }
    }
}

} // verus!
