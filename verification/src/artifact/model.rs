//! The artifact model, its accessors, and its JSON form.

use vstd::prelude::*;

use super::json::{Json, JsonNumber};
use crate::text::{owned, str_eq};

verus! {

/// A validated release artifact.
#[derive(Debug, Clone, PartialEq)]
pub struct Artifact {
    pub schema_version: u32,
    pub changed: bool,
    pub version: Option<String>,
    pub tag: Option<String>,
    pub release: Option<Release>,
    pub pull_request: Option<PullRequest>,
}

/// GitHub Release content supplied by the workflow.
#[derive(Debug, Clone, Default, PartialEq)]
pub struct Release {
    pub name: Option<String>,
    pub notes: Option<String>,
    pub prerelease: Option<bool>,
    pub make_latest: Option<bool>,
}

/// Release PR overrides supplied by the workflow.
#[derive(Debug, Clone, Default, PartialEq)]
pub struct PullRequest {
    pub title: Option<String>,
    pub body: Option<String>,
    pub labels: Vec<String>,
}

/// The abstract content of a [`Release`].
pub struct ReleaseView {
    pub name: Option<Seq<char>>,
    pub notes: Option<Seq<char>>,
    pub prerelease: Option<bool>,
    pub make_latest: Option<bool>,
}

/// The abstract content of a [`PullRequest`].
pub struct PullRequestView {
    pub title: Option<Seq<char>>,
    pub body: Option<Seq<char>>,
    pub labels: Seq<Seq<char>>,
}

/// The abstract content of an [`Artifact`].
pub struct ArtifactView {
    pub schema_version: u32,
    pub changed: bool,
    pub version: Option<Seq<char>>,
    pub tag: Option<Seq<char>>,
    pub release: Option<ReleaseView>,
    pub pull_request: Option<PullRequestView>,
}

pub open spec fn opt_view(s: Option<String>) -> Option<Seq<char>> {
    match s {
        Some(s) => Some(s@),
        None => None,
    }
}

pub open spec fn strings_view(v: Seq<String>) -> Seq<Seq<char>> {
    v.map_values(|s: String| s@)
}

impl View for Release {
    type V = ReleaseView;

    open spec fn view(&self) -> ReleaseView {
        ReleaseView {
            name: opt_view(self.name),
            notes: opt_view(self.notes),
            prerelease: self.prerelease,
            make_latest: self.make_latest,
        }
    }
}

impl View for PullRequest {
    type V = PullRequestView;

    open spec fn view(&self) -> PullRequestView {
        PullRequestView {
            title: opt_view(self.title),
            body: opt_view(self.body),
            labels: strings_view(self.labels@),
        }
    }
}

impl View for Artifact {
    type V = ArtifactView;

    open spec fn view(&self) -> ArtifactView {
        ArtifactView {
            schema_version: self.schema_version,
            changed: self.changed,
            version: opt_view(self.version),
            tag: opt_view(self.tag),
            release: match self.release {
                Some(r) => Some(r@),
                None => None,
            },
            pull_request: match self.pull_request {
                Some(p) => Some(p@),
                None => None,
            },
        }
    }
}

// --- What the accessors answer -----------------------------------------------

/// Release notes, or the empty text when none were supplied.
pub open spec fn notes_of(a: ArtifactView) -> Seq<char> {
    match a.release {
        Some(r) => match r.notes {
            Some(n) => n,
            None => Seq::empty(),
        },
        None => Seq::empty(),
    }
}

/// The release title, falling back to the tag.
pub open spec fn release_name_of(a: ArtifactView) -> Option<Seq<char>> {
    match a.release {
        Some(r) => match r.name {
            Some(n) => Some(n),
            None => a.tag,
        },
        None => a.tag,
    }
}

/// Whether the release is a pre-release (`false` unless stated).
pub open spec fn is_prerelease_of(a: ArtifactView) -> bool {
    match a.release {
        Some(r) => match r.prerelease {
            Some(p) => p,
            None => false,
        },
        None => false,
    }
}

/// The stated `make_latest`, if any.
pub open spec fn make_latest_of(a: ArtifactView) -> Option<bool> {
    match a.release {
        Some(r) => r.make_latest,
        None => None,
    }
}

/// A release is a pre-release exactly when its release object says
/// `prerelease: true`: an unstated `prerelease`, or no release object at
/// all, means a normal release.
pub proof fn lemma_prerelease_only_when_stated(a: ArtifactView)
    ensures
        is_prerelease_of(a) <==> (a.release matches Some(r) && r.prerelease == Some(true)),
        (a.release matches Some(r) && r.prerelease is None) ==> !is_prerelease_of(a),
        a.release is None ==> !is_prerelease_of(a),
{
}

/// `make_latest` is passed through as the workflow stated it: the release
/// object's own field when there is one, and nothing when there is none.
/// An unstated `make_latest` is never turned into a value, so GitHub's own
/// default stays in force.
pub proof fn lemma_make_latest_as_stated(a: ArtifactView)
    ensures
        a.release matches Some(r) ==> make_latest_of(a) == r.make_latest,
        a.release is None ==> make_latest_of(a) is None,
        make_latest_of(a) is Some ==> (a.release matches Some(r) && r.make_latest == make_latest_of(a)),
{
}

/// `Some(t)` projected to its view.
pub open spec fn str_opt_view(s: Option<&str>) -> Option<Seq<char>> {
    match s {
        Some(t) => Some(t@),
        None => None,
    }
}

fn as_str_opt(s: &Option<String>) -> (r: Option<&str>)
    ensures
        str_opt_view(r) == opt_view(*s),
{
    match s {
        Some(t) => Some(t.as_str()),
        None => None,
    }
}

impl Artifact {
    /// The tag, which the schema guarantees is present when `changed`.
    pub fn tag(&self) -> (r: Option<&str>)
        ensures
            str_opt_view(r) == self@.tag,
    {
        as_str_opt(&self.tag)
    }

    /// The version, guaranteed present when `changed`.
    pub fn version(&self) -> (r: Option<&str>)
        ensures
            str_opt_view(r) == self@.version,
    {
        as_str_opt(&self.version)
    }

    /// Release notes, or an empty string when the workflow supplied none.
    pub fn notes(&self) -> (r: &str)
        ensures
            r@ == notes_of(self@),
    {
        match &self.release {
            Some(r) => match &r.notes {
                Some(n) => n.as_str(),
                None => {
                    proof { reveal_strlit(""); }
                    ""
                },
            },
            None => {
                proof { reveal_strlit(""); }
                ""
            },
        }
    }

    /// Release title, falling back to the tag.
    pub fn release_name(&self) -> (r: Option<&str>)
        ensures
            str_opt_view(r) == release_name_of(self@),
    {
        match &self.release {
            Some(r) => match &r.name {
                Some(n) => Some(n.as_str()),
                None => self.tag(),
            },
            None => self.tag(),
        }
    }

    /// Whether the GitHub Release should be marked as a pre-release.
    pub fn is_prerelease(&self) -> (r: bool)
        ensures
            r == is_prerelease_of(self@),
            r <==> (self.release matches Some(x) && x.prerelease == Some(true)),
    {
        match &self.release {
            Some(r) => match r.prerelease {
                Some(p) => p,
                None => false,
            },
            None => false,
        }
    }

    /// Whether the GitHub Release should be marked as the repository's
    /// latest; `None` leaves GitHub's own default in force.
    pub fn make_latest(&self) -> (r: Option<bool>)
        ensures
            r == make_latest_of(self@),
            r == match self.release {
                Some(x) => x.make_latest,
                None => None,
            },
    {
        match &self.release {
            Some(r) => r.make_latest,
            None => None,
        }
    }
}

} // verus!
