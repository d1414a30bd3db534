//! Slash-separated paths, read the way `std::path` reads a Unix path.
//!
//! gh-ship only ever looks at the shape of a path (its last component,
//! the stem of a file name, the directory two levels up), never at the
//! file system, so that shape is computed here on the text.

use vstd::prelude::*;

use crate::artifact::model::strings_view;
use crate::artifact::span::{lemma_split_acc_len, segments, split_slash};
use crate::text::{chars_of, owned, push_str, str_eq, string_of_range};

verus! {

/// Whether a piece between separators names a component: empty pieces
/// (repeated or trailing separators) and `.` pieces are not components.
pub open spec fn names_component(piece: Seq<char>) -> bool {
    piece.len() > 0 && piece != seq!['.']
}

/// The pieces of `segs` that name components, in order.
pub open spec fn named(segs: Seq<Seq<char>>) -> Seq<Seq<char>>
    decreases segs.len(),
{
    if segs.len() == 0 {
        Seq::empty()
    } else if names_component(segs.last()) {
        named(segs.drop_last()).push(segs.last())
    } else {
        named(segs.drop_last())
    }
}

/// The components of a path other than a root or a leading `.`.
pub open spec fn components(p: Seq<char>) -> Seq<Seq<char>> {
    named(segments(p))
}

/// Whether the path starts at the root.
pub open spec fn is_absolute(p: Seq<char>) -> bool {
    p.len() > 0 && p[0] == '/'
}

/// Whether a relative path starts with a `.` component.
pub open spec fn starts_here(p: Seq<char>) -> bool {
    !is_absolute(p) && segments(p)[0] == seq!['.']
}

/// Components joined with single separators.
pub open spec fn joined(c: Seq<Seq<char>>) -> Seq<char>
    decreases c.len(),
{
    if c.len() == 0 {
        Seq::empty()
    } else if c.len() == 1 {
        c[0]
    } else {
        joined(c.drop_last()) + seq!['/'] + c.last()
    }
}

/// The final component, unless there is none or it is `..`
/// (`Path::file_name`).
pub open spec fn file_name_of(p: Seq<char>) -> Option<Seq<char>> {
    let c = components(p);
    if c.len() == 0 || c.last() == seq!['.', '.'] {
        None
    } else {
        Some(c.last())
    }
}

/// The position of the last `c` in `s`.
pub open spec fn last_index_of(s: Seq<char>, c: char) -> Option<int>
    decreases s.len(),
{
    if s.len() == 0 {
        None
    } else if s.last() == c {
        Some(s.len() - 1)
    } else {
        last_index_of(s.drop_last(), c)
    }
}

/// A file name without its extension: everything before the last `.`,
/// unless that `.` starts the name (`Path::file_stem`).
pub open spec fn stem_of_name(n: Seq<char>) -> Seq<char> {
    match last_index_of(n, '.') {
        Some(i) => if i > 0 { n.take(i) } else { n },
        None => n,
    }
}

pub open spec fn file_stem_of(p: Seq<char>) -> Option<Seq<char>> {
    match file_name_of(p) {
        Some(n) => Some(stem_of_name(n)),
        None => None,
    }
}

/// The extension of a file name: what follows the last `.`, unless that
/// `.` starts the name (`Path::extension`).
pub open spec fn extension_of_name(n: Seq<char>) -> Option<Seq<char>> {
    match last_index_of(n, '.') {
        Some(i) => if i > 0 { Some(n.skip(i + 1)) } else { None },
        None => None,
    }
}

/// The extension of a file name.
pub fn extension(name: &str) -> (r: Option<String>)
    ensures
        match extension_of_name(name@) {
            Some(e) => r matches Some(x) && x@ == e,
            None => r is None,
        },
{
    let cs = chars_of(name);
    let mut i: usize = cs.len();
    assert(cs@.take(cs@.len() as int) =~= cs@);
    while i > 0
        invariant
            i <= cs@.len(),
            cs@ == name@,
            last_index_of(name@, '.') == last_index_of(cs@.take(i as int), '.'),
        decreases i,
    {
        assert(cs@.take(i as int).drop_last() =~= cs@.take(i - 1));
        if cs[i - 1] == '.' {
            if i - 1 > 0 {
                let e = string_of_range(&cs, i, cs.len());
                assert(e@ =~= name@.skip(i as int));
                return Some(e);
            } else {
                return None;
            }
        }
        i -= 1;
    }
    None
}

/// The repository root a config path implies: the directory holding a
/// `.github` directory that holds the config, written with single
/// separators; `.` when the path does not have that shape.
pub open spec fn repo_root_of(p: Seq<char>) -> Seq<char> {
    let c = components(p);
    let n = c.len();
    if n >= 2 && c[n - 2] == ".github"@ {
        if n > 2 {
            (if is_absolute(p) { seq!['/'] } else if starts_here(p) { seq!['.', '/'] } else { Seq::empty() })
                + joined(c.take(n - 2))
        } else if is_absolute(p) {
            seq!['/']
        } else {
            seq!['.']
        }
    } else {
        seq!['.']
    }
}

/// The components of `p`.
pub fn path_components(p: &str) -> (r: Vec<String>)
    ensures
        strings_view(r@) == components(p@),
{
    proof {
        reveal_strlit("");
        reveal_strlit(".");
        assert(""@ =~= Seq::<char>::empty());
        assert("."@ =~= seq!['.']);
    }
    let segs = split_slash(p);
    let ghost all = strings_view(segs@);
    let mut out: Vec<String> = Vec::new();
    let mut i: usize = 0;
    assert(all.take(0) =~= Seq::<Seq<char>>::empty());
    while i < segs.len()
        invariant
            i <= segs@.len(),
            all == strings_view(segs@),
            all == segments(p@),
            strings_view(out@) == named(all.take(i as int)),
        decreases segs.len() - i,
    {
        let ghost before = strings_view(out@);
        assert(all.take(i + 1).drop_last() =~= all.take(i as int));
        assert(all.take(i + 1).last() == all[i as int]);
        proof {
            reveal_strlit("");
            reveal_strlit(".");
            assert(""@ =~= Seq::<char>::empty());
            assert("."@ =~= seq!['.']);
        }
        let s = &segs[i];
        assert(s@ == all[i as int]);
        assert(s@.len() == 0 ==> s@ =~= Seq::<char>::empty());
        if !str_eq(s.as_str(), "") && !str_eq(s.as_str(), ".") {
            assert(names_component(all[i as int]));
            out.push(s.clone());
            assert(strings_view(out@) =~= before.push(all[i as int]));
        } else {
            assert(!names_component(all[i as int]));
        }
        i += 1;
    }
    assert(all.take(segs@.len() as int) =~= all);
    out
}

/// `Path::file_name`, as text.
pub fn file_name(p: &str) -> (r: Option<String>)
    ensures
        match file_name_of(p@) {
            Some(n) => r matches Some(x) && x@ == n,
            None => r is None,
        },
{
    proof {
        reveal_strlit("..");
        assert(".."@ =~= seq!['.', '.']);
    }
    let mut c = path_components(p);
    let ghost cv = strings_view(c@);
    if c.len() == 0 {
        return None;
    }
    assert(cv.last() == c@[c@.len() - 1]@);
    let last = c.pop().unwrap();
    if str_eq(last.as_str(), "..") {
        None
    } else {
        Some(last)
    }
}

/// The stem of a file name.
pub fn stem_of(name: &str) -> (r: String)
    ensures
        r@ == stem_of_name(name@),
{
    let cs = chars_of(name);
    let mut i: usize = cs.len();
    assert(cs@.take(cs@.len() as int) =~= cs@);
    while i > 0
        invariant
            i <= cs@.len(),
            cs@ == name@,
            last_index_of(name@, '.') == last_index_of(cs@.take(i as int), '.'),
        decreases i,
    {
        assert(cs@.take(i as int).drop_last() =~= cs@.take(i - 1));
        if cs[i - 1] == '.' {
            if i - 1 > 0 {
                return string_of_range(&cs, 0, i - 1);
            } else {
                return string_of_range(&cs, 0, cs.len());
            }
        }
        i -= 1;
    }
    string_of_range(&cs, 0, cs.len())
}

/// `Path::file_stem`, as text.
pub fn file_stem(p: &str) -> (r: Option<String>)
    ensures
        match file_stem_of(p@) {
            Some(s) => r matches Some(x) && x@ == s,
            None => r is None,
        },
{
    match file_name(p) {
        Some(n) => Some(stem_of(n.as_str())),
        None => None,
    }
}

/// Components joined with single separators.
fn join(c: &[String], n: usize) -> (r: String)
    requires
        n <= c@.len(),
    ensures
        r@ == joined(strings_view(c@).take(n as int)),
{
    let ghost all = strings_view(c@);
    let mut out = String::new();
    let mut i: usize = 0;
    assert(all.take(0) =~= Seq::<Seq<char>>::empty());
    while i < n
        invariant
            n <= c@.len(),
            i <= n,
            all == strings_view(c@),
            out@ == joined(all.take(i as int)),
        decreases n - i,
    {
        assert(all.take(i + 1).drop_last() =~= all.take(i as int));
        if i > 0 {
            push_str(&mut out, "/");
            proof {
                reveal_strlit("/");
            }
        } else {
            assert(out@ =~= Seq::<char>::empty());
        }
        push_str(&mut out, c[i].as_str());
        i += 1;
    }
    out
}

/// Infer the repository root from the config path.
///
/// `.github/ship.yml` lies in the directory holding `.github`. A config
/// passed from anywhere else falls back to the current directory, the
/// best guess available.
pub fn repo_root(config: &str) -> (r: String)
    ensures
        r@ == repo_root_of(config@),
{
    let c = path_components(config);
    let ghost cv = strings_view(c@);
    let n = c.len();
    proof {
        reveal_strlit(".github");
        reveal_strlit("/");
        reveal_strlit(".");
        reveal_strlit("./");
        reveal_strlit("");
        assert("/"@ =~= seq!['/']);
        assert("."@ =~= seq!['.']);
        assert("./"@ =~= seq!['.', '/']);
    }
    if n >= 2 && str_eq(c[n - 2].as_str(), ".github") {
        assert(cv[n - 2] == c@[n - 2]@);
        let cs = chars_of(config);
        let absolute = cs.len() > 0 && cs[0] == '/';
        assert(absolute == is_absolute(config@));
        if n > 2 {
            let mut out = if absolute {
                owned("/")
            } else {
                let segs = split_slash(config);
                proof {
                    lemma_split_acc_len(config@, Seq::empty());
                }
                assert(segs@[0]@ == segments(config@)[0]);
                if str_eq(segs[0].as_str(), ".") {
                    owned("./")
                } else {
                    String::new()
                }
            };
            let ghost head = out@;
            assert(head == (if is_absolute(config@) { seq!['/'] } else if starts_here(config@) { seq!['.', '/'] } else { Seq::empty() }));
            let j = join(&c, n - 2);
            assert(j@ == joined(cv.take(n - 2)));
            push_str(&mut out, j.as_str());
            out
        } else if absolute {
            owned("/")
        } else {
            owned(".")
        }
    } else {
        owned(".")
    }
}

} // verus!
