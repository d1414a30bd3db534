//! Which branch is gh-ship releasing from?
//!
//! With several release lines configured, the base branch is an input: it
//! selects the line. gh-ship looks in exactly two places (the GitHub
//! Actions environment, and the local checkout's `.git/HEAD`) besides an
//! explicit flag, and gives up rather than guess. Reading the environment
//! and the files is the caller's; what they say is weighed here.

use vstd::prelude::*;

use crate::text::{self, is_prefix, owned, str_eq, strip_prefix, trim, trimmed};

verus! {

/// Where a base branch came from, so `gh ship status` can say.
#[derive(Debug, Clone, Copy, PartialEq, Eq, Structural)]
pub enum Origin {
    /// `--base`, or `SHIP_BASE_BRANCH`.
    Flag,
    /// The GitHub Actions environment.
    Ci,
    /// The local checkout's `.git/HEAD`.
    Git,
    /// Nothing said otherwise, so the repository's default branch.
    Default,
}

pub open spec fn origin_text(o: Origin) -> Seq<char> {
    match o {
        Origin::Flag => "from --base"@,
        Origin::Ci => "detected from CI"@,
        Origin::Git => "detected from the checkout"@,
        Origin::Default => "the repository default"@,
    }
}

/// The origin's name in machine-readable output.
pub open spec fn origin_key(o: Origin) -> Seq<char> {
    match o {
        Origin::Flag => "flag"@,
        Origin::Ci => "ci"@,
        Origin::Git => "git"@,
        Origin::Default => "default"@,
    }
}

impl Origin {
    /// The origin's name in machine-readable output.
    pub fn key(self) -> (r: &'static str)
        ensures
            r@ == origin_key(self),
    {
        match self {
            Origin::Flag => "flag",
            Origin::Ci => "ci",
            Origin::Git => "git",
            Origin::Default => "default",
        }
    }

    /// How the origin reads in a report.
    pub fn describe(self) -> (r: &'static str)
        ensures
            r@ == origin_text(self),
    {
        match self {
            Origin::Flag => "from --base",
            Origin::Ci => "detected from CI",
            Origin::Git => "detected from the checkout",
            Origin::Default => "the repository default",
        }
    }
}

/// A base branch and how it was found.
#[derive(Debug, Clone)]
pub struct Detected {
    pub branch: String,
    pub origin: Origin,
}

/// The environment as name/value pairs.
pub open spec fn env_view(env: Seq<(String, String)>) -> Seq<(Seq<char>, Seq<char>)> {
    env.map_values(|p: (String, String)| (p.0@, p.1@))
}

/// A variable's value: the last pair that sets it, as collecting the
/// process environment into a map keeps.
pub open spec fn env_value(env: Seq<(Seq<char>, Seq<char>)>, key: Seq<char>) -> Option<Seq<char>>
    decreases env.len(),
{
    if env.len() == 0 {
        None
    } else if env.last().0 == key {
        Some(env.last().1)
    } else {
        env_value(env.drop_last(), key)
    }
}

/// A variable that is set to something: an empty value counts as unset.
pub open spec fn env_set(env: Seq<(Seq<char>, Seq<char>)>, key: Seq<char>) -> Option<Seq<char>> {
    match env_value(env, key) {
        Some(v) => if v.len() > 0 { Some(v) } else { None },
        None => None,
    }
}

/// The base branch according to the GitHub Actions environment.
///
/// On a `pull_request` event `GITHUB_BASE_REF` is the branch the PR
/// targets, exactly the base branch, and is read first: `GITHUB_REF` is
/// then `refs/pull/N/merge`, which names no branch. `GITHUB_HEAD_REF`, the
/// contributor's branch, is never read. `GITHUB_REF_NAME` is preferred
/// only once `GITHUB_REF` has shown the ref to be a branch, not a tag.
pub open spec fn ci_branch(env: Seq<(Seq<char>, Seq<char>)>) -> Option<Seq<char>> {
    if env_set(env, "GITHUB_ACTIONS"@) != Some("true"@) {
        None
    } else {
        match env_set(env, "GITHUB_BASE_REF"@) {
            Some(base) => Some(base),
            None => match env_set(env, "GITHUB_REF"@) {
                Some(r) => if is_prefix("refs/heads/"@, r) {
                    match env_set(env, "GITHUB_REF_NAME"@) {
                        Some(n) => Some(n),
                        None => Some(r.skip(11)),
                    }
                } else {
                    None
                },
                None => None,
            },
        }
    }
}

fn env_get(env: &[(String, String)], key: &str) -> (r: Option<String>)
    ensures
        match env_set(env_view(env@), key@) {
            Some(v) => r matches Some(x) && x@ == v,
            None => r is None,
        },
{
    let ghost ev = env_view(env@);
    let mut i: usize = env.len();
    assert(ev.take(ev.len() as int) =~= ev);
    while i > 0
        invariant
            i <= env@.len(),
            ev == env_view(env@),
            env_value(ev, key@) == env_value(ev.take(i as int), key@),
        decreases i,
    {
        let ghost t = ev.take(i as int);
        assert(t.drop_last() =~= ev.take(i - 1));
        assert(t.last() == (env@[i - 1].0@, env@[i - 1].1@));
        if str_eq(env[i - 1].0.as_str(), key) {
            let v = env[i - 1].1.clone();
            proof {
                reveal_strlit("");
            }
            if str_eq(v.as_str(), "") {
                assert(""@ =~= Seq::<char>::empty());
                return None;
            }
            assert(v@.len() > 0) by {
                if v@.len() == 0 {
                    assert(v@ =~= ""@);
                }
            }
            return Some(v);
        }
        i -= 1;
    }
    assert(ev.take(0) =~= Seq::<(Seq<char>, Seq<char>)>::empty());
    None
}

/// The base branch according to the GitHub Actions environment.
pub fn from_ci(env: &[(String, String)]) -> (r: Option<String>)
    ensures
        match ci_branch(env_view(env@)) {
            Some(b) => r matches Some(x) && x@ == b,
            None => r is None,
        },
{
    proof {
        reveal_strlit("true");
        reveal_strlit("refs/heads/");
    }
    match env_get(env, "GITHUB_ACTIONS") {
        Some(v) => {
            if !str_eq(v.as_str(), "true") {
                return None;
            }
        },
        None => {
            return None;
        },
    }
    if let Some(base) = env_get(env, "GITHUB_BASE_REF") {
        return Some(base);
    }
    let reference = match env_get(env, "GITHUB_REF") {
        Some(r) => r,
        None => return None,
    };
    let branch = match strip_prefix(reference.as_str(), "refs/heads/") {
        Some(b) => b,
        None => return None,
    };
    match env_get(env, "GITHUB_REF_NAME") {
        Some(n) => Some(n),
        None => Some(branch),
    }
}

/// The checked-out branch a `.git/HEAD` names. A detached HEAD holds a
/// bare SHA rather than a symbolic ref, and names none.
pub open spec fn head_branch_of(head: Seq<char>) -> Option<Seq<char>> {
    let t = trim(head);
    if is_prefix("ref: refs/heads/"@, t) && t.len() > 16 {
        Some(t.skip(16))
    } else {
        None
    }
}

pub fn head_branch(head: &str) -> (r: Option<String>)
    ensures
        match head_branch_of(head@) {
            Some(b) => r matches Some(x) && x@ == b,
            None => r is None,
        },
{
    proof {
        reveal_strlit("ref: refs/heads/");
    }
    let t = trimmed(head);
    match strip_prefix(t.as_str(), "ref: refs/heads/") {
        Some(b) => {
            if crate::text::char_count(b.as_str()) == 0 {
                None
            } else {
                Some(b)
            }
        },
        None => None,
    }
}

/// Where a `.git` file points: in a linked worktree `.git` is a file
/// holding `gitdir: <path>`, absolute or relative to the checkout.
pub open spec fn git_dir_pointer_of(text: Seq<char>) -> Option<Seq<char>> {
    let t = trim(text);
    if is_prefix("gitdir:"@, t) {
        Some(trim(t.skip(7)))
    } else {
        None
    }
}

pub fn git_dir_pointer(text: &str) -> (r: Option<String>)
    ensures
        match git_dir_pointer_of(text@) {
            Some(p) => r matches Some(x) && x@ == p,
            None => r is None,
        },
{
    proof {
        reveal_strlit("gitdir:");
    }
    let t = trimmed(text);
    match strip_prefix(t.as_str(), "gitdir:") {
        Some(rest) => Some(trimmed(rest.as_str())),
        None => None,
    }
}

/// The branch gh-ship is releasing from: the flag when it says something,
/// else what CI says, else the checked-out branch (`checkout`, read by the
/// caller from `.git/HEAD` with [`head_branch`]); `None` when nothing
/// does, and the caller falls back to the repository default.
pub open spec fn detected_of(flag: Option<Seq<char>>, env: Seq<(Seq<char>, Seq<char>)>, checkout: Option<Seq<char>>) -> Option<(Seq<char>, Origin)> {
    match flag {
        Some(f) if trim(f).len() > 0 => Some((trim(f), Origin::Flag)),
        _ => match ci_branch(env) {
            Some(b) => Some((b, Origin::Ci)),
            None => match checkout {
                Some(b) => Some((b, Origin::Git)),
                None => None,
            },
        },
    }
}

pub fn base_branch(flag: Option<&str>, env: &[(String, String)], checkout: Option<String>) -> (r: Option<Detected>)
    ensures
        match flag {
            Some(f) => trim(f@).len() > 0 ==> (r matches Some(d) && d.origin == Origin::Flag && d.branch@ == trim(f@)),
            None => true,
        },
        match detected_of(
            match flag {
                Some(f) => Some(f@),
                None => None,
            },
            env_view(env@),
            match checkout {
                Some(c) => Some(c@),
                None => None,
            },
        ) {
            Some((b, o)) => r matches Some(d) && d.branch@ == b && d.origin == o,
            None => r is None,
        },
{
    if let Some(f) = flag {
        let t = trimmed(f);
        if crate::text::char_count(t.as_str()) > 0 {
            return Some(Detected { branch: t, origin: Origin::Flag });
        }
    }
    if let Some(b) = from_ci(env) {
        return Some(Detected { branch: b, origin: Origin::Ci });
    }
    match checkout {
        Some(b) => Some(Detected { branch: b, origin: Origin::Git }),
        None => None,
    }
}

} // verus!
