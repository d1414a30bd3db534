//! Character-level string helpers with exact contracts.
//!
//! Text is reasoned about as its sequence of characters (`s@`). These
//! helpers are the small vocabulary the rest of the crate is written in:
//! prefixes, occurrences, whitespace trimming and concatenation.

use vstd::prelude::*;

verus! {

// --- Specifications --------------------------------------------------------

/// `p` is a prefix of `s`.
pub open spec fn is_prefix(p: Seq<char>, s: Seq<char>) -> bool {
    p.len() <= s.len() && s.subrange(0, p.len() as int) == p
}

/// `p` is a suffix of `s`.
pub open spec fn is_suffix(p: Seq<char>, s: Seq<char>) -> bool {
    p.len() <= s.len() && s.subrange(s.len() - p.len(), s.len() as int) == p
}

/// `p` occurs in `s` starting at index `i`.
pub open spec fn occurs_at(s: Seq<char>, p: Seq<char>, i: int) -> bool {
    0 <= i && i + p.len() <= s.len() && s.subrange(i, i + p.len()) == p
}

/// `p` occurs somewhere in `s`.
pub open spec fn contains(s: Seq<char>, p: Seq<char>) -> bool {
    exists|i: int| occurs_at(s, p, i)
}

/// `i` is the first index at or after `from` where `p` occurs in `s`.
pub open spec fn first_occurrence_from(s: Seq<char>, p: Seq<char>, from: int, i: int) -> bool {
    from <= i && occurs_at(s, p, i) && forall|j: int| from <= j < i ==> !occurs_at(s, p, j)
}

/// No occurrence of `p` in `s` starts at or after `from`.
pub open spec fn absent_from(s: Seq<char>, p: Seq<char>, from: int) -> bool {
    forall|j: int| from <= j ==> !occurs_at(s, p, j)
}

/// The Unicode `White_Space` property, as `char::is_whitespace` defines it.
pub open spec fn is_space(c: char) -> bool {
    ||| ('\u{9}' <= c && c <= '\u{d}')
    ||| c == ' '
    ||| c == '\u{85}'
    ||| c == '\u{a0}'
    ||| c == '\u{1680}'
    ||| ('\u{2000}' <= c && c <= '\u{200a}')
    ||| c == '\u{2028}'
    ||| c == '\u{2029}'
    ||| c == '\u{202f}'
    ||| c == '\u{205f}'
    ||| c == '\u{3000}'
}

/// `s` without its leading whitespace.
pub open spec fn trim_start(s: Seq<char>) -> Seq<char>
    decreases s.len(),
{
    if s.len() > 0 && is_space(s[0]) {
        trim_start(s.drop_first())
    } else {
        s
    }
}

/// `s` without its trailing whitespace.
pub open spec fn trim_end(s: Seq<char>) -> Seq<char>
    decreases s.len(),
{
    if s.len() > 0 && is_space(s.last()) {
        trim_end(s.drop_last())
    } else {
        s
    }
}

/// `s` without leading and trailing whitespace, as `str::trim` does.
pub open spec fn trim(s: Seq<char>) -> Seq<char> {
    trim_end(trim_start(s))
}

/// Whether every character of `s` is whitespace.
pub open spec fn all_space(s: Seq<char>) -> bool {
    forall|i: int| 0 <= i < s.len() ==> is_space(#[trigger] s[i])
}

/// ASCII lower-casing of a single character, as `char::to_ascii_lowercase`.
pub open spec fn ascii_lower(c: char) -> char {
    if 'A' <= c && c <= 'Z' {
        ((c as u32) + 32) as char
    } else {
        c
    }
}

/// ASCII case-insensitive equality, as `str::eq_ignore_ascii_case`.
pub open spec fn eq_ignore_ascii_case(a: Seq<char>, b: Seq<char>) -> bool {
    a.len() == b.len() && forall|i: int| 0 <= i < a.len() ==> ascii_lower(#[trigger] a[i]) == ascii_lower(b[i])
}

/// Number of occurrences of `c` in `s`.
pub open spec fn count_char(s: Seq<char>, c: char) -> nat
    decreases s.len(),
{
    if s.len() == 0 {
        0
    } else {
        count_char(s.drop_last(), c) + if s.last() == c { 1nat } else { 0nat }
    }
}

// --- Lemmas ------------------------------------------------------------------

pub proof fn lemma_trim_start_is_suffix(s: Seq<char>)
    ensures
        trim_start(s).len() <= s.len(),
        trim_start(s) == s.subrange(s.len() - trim_start(s).len(), s.len() as int),
        trim_start(s).len() > 0 ==> !is_space(trim_start(s)[0]),
    decreases s.len(),
{
    if s.len() > 0 && is_space(s[0]) {
        lemma_trim_start_is_suffix(s.drop_first());
        assert(s.drop_first().subrange(s.drop_first().len() - trim_start(s).len(), s.drop_first().len() as int)
            =~= s.subrange(s.len() - trim_start(s).len(), s.len() as int));
    } else {
        assert(s.subrange(0, s.len() as int) =~= s);
    }
}

pub proof fn lemma_trim_end_is_prefix(s: Seq<char>)
    ensures
        trim_end(s).len() <= s.len(),
        trim_end(s) == s.subrange(0, trim_end(s).len() as int),
        trim_end(s).len() > 0 ==> !is_space(trim_end(s).last()),
    decreases s.len(),
{
    if s.len() > 0 && is_space(s.last()) {
        lemma_trim_end_is_prefix(s.drop_last());
        assert(s.drop_last().subrange(0, trim_end(s).len() as int) =~= s.subrange(0, trim_end(s).len() as int));
    } else {
        assert(s.subrange(0, s.len() as int) =~= s);
    }
}

/// What trimming the end removes is whitespace.
pub proof fn lemma_trim_end_drops_space(s: Seq<char>)
    ensures
        trim_end(s).len() <= s.len(),
        all_space(s.skip(trim_end(s).len() as int)),
    decreases s.len(),
{
    if s.len() > 0 && is_space(s.last()) {
        lemma_trim_end_drops_space(s.drop_last());
        let n = trim_end(s).len() as int;
        assert forall|i: int| 0 <= i < s.skip(n).len() implies is_space(#[trigger] s.skip(n)[i]) by {
            if n + i < s.len() - 1 {
                assert(s.skip(n)[i] == s.drop_last().skip(n)[i]);
            }
        }
    } else {
        assert(s.skip(s.len() as int).len() == 0);
    }
}

/// Leading whitespace is all in the first part when that part has
/// something else.
pub proof fn lemma_trim_start_concat(u: Seq<char>, v: Seq<char>, k: int)
    requires
        0 <= k < u.len(),
        !is_space(u[k]),
    ensures
        trim_start(u + v) == trim_start(u) + v,
    decreases u.len(),
{
    if is_space(u[0]) {
        assert((u + v).drop_first() =~= u.drop_first() + v);
        assert(u.drop_first()[k - 1] == u[k]);
        lemma_trim_start_concat(u.drop_first(), v, k - 1);
    } else {
        assert((u + v)[0] == u[0]);
    }
}

/// Trailing whitespace makes no difference to what trimming the end
/// leaves.
pub proof fn lemma_trim_end_of_spaces(u: Seq<char>, w: Seq<char>)
    requires
        all_space(w),
    ensures
        trim_end(u + w) == trim_end(u),
    decreases w.len(),
{
    if w.len() == 0 {
        assert(u + w =~= u);
    } else {
        assert((u + w).drop_last() =~= u + w.drop_last());
        assert((u + w).last() == w.last());
        assert(is_space(w[w.len() - 1]));
        assert(all_space(w.drop_last())) by {
            assert forall|i: int| 0 <= i < w.drop_last().len() implies is_space(#[trigger] w.drop_last()[i]) by {
                assert(w.drop_last()[i] == w[i]);
            }
        }
        lemma_trim_end_of_spaces(u, w.drop_last());
    }
}

/// Which whitespace follows a text's trimmed end makes no difference to
/// the trimmed text.
pub proof fn lemma_trim_of_trim_end(s: Seq<char>, w: Seq<char>)
    requires
        all_space(w),
        trim_end(s).len() > 0,
    ensures
        trim(trim_end(s) + w) == trim(s),
{
    let t = trim_end(s);
    lemma_trim_end_is_prefix(s);
    lemma_trim_end_drops_space(s);
    let rest = s.skip(t.len() as int);
    assert(s =~= t + rest);
    lemma_trim_start_concat(t, w, t.len() - 1);
    lemma_trim_start_concat(t, rest, t.len() - 1);
    lemma_trim_end_of_spaces(trim_start(t), w);
    lemma_trim_end_of_spaces(trim_start(t), rest);
}

/// Trimming an all-whitespace text leaves nothing, and only then.
pub proof fn lemma_trim_empty_iff_all_space(s: Seq<char>)
    ensures
        (trim(s).len() == 0) == all_space(s),
    decreases s.len(),
{
    lemma_trim_start_empty_iff(s);
    lemma_trim_end_empty_iff(trim_start(s));
    lemma_trim_start_is_suffix(s);
    if trim_start(s).len() > 0 {
        assert(!is_space(trim_start(s)[0]));
        assert(!all_space(trim_start(s)));
    }
}

proof fn lemma_trim_start_empty_iff(s: Seq<char>)
    ensures
        (trim_start(s).len() == 0) == all_space(s),
    decreases s.len(),
{
    if s.len() > 0 && is_space(s[0]) {
        lemma_trim_start_empty_iff(s.drop_first());
        if all_space(s.drop_first()) {
            assert forall|i: int| 0 <= i < s.len() implies is_space(#[trigger] s[i]) by {
                if i > 0 {
                    assert(s[i] == s.drop_first()[i - 1]);
                }
            }
        }
        if all_space(s) {
            assert forall|i: int| 0 <= i < s.drop_first().len() implies is_space(#[trigger] s.drop_first()[i]) by {
                assert(s.drop_first()[i] == s[i + 1]);
            }
        }
    } else if s.len() > 0 {
        assert(!is_space(s[0]));
    }
}

pub proof fn lemma_trim_end_empty_iff(s: Seq<char>)
    ensures
        (trim_end(s).len() == 0) == (all_space(s)),
    decreases s.len(),
{
    if s.len() > 0 && is_space(s.last()) {
        lemma_trim_end_empty_iff(s.drop_last());
        if all_space(s.drop_last()) {
            assert forall|i: int| 0 <= i < s.len() implies is_space(#[trigger] s[i]) by {
                if i < s.len() - 1 {
                    assert(s[i] == s.drop_last()[i]);
                }
            }
        }
        if all_space(s) {
            assert forall|i: int| 0 <= i < s.drop_last().len() implies is_space(#[trigger] s.drop_last()[i]) by {
                assert(s.drop_last()[i] == s[i]);
            }
        }
    } else if s.len() > 0 {
        assert(!is_space(s.last()));
    }
}

proof fn lemma_all_space_trim_start(s: Seq<char>)
    ensures
        all_space(s) ==> all_space(trim_start(s)),
    decreases s.len(),
{
    if s.len() > 0 && is_space(s[0]) {
        if all_space(s) {
            assert forall|i: int| 0 <= i < s.drop_first().len() implies is_space(#[trigger] s.drop_first()[i]) by {
                assert(s.drop_first()[i] == s[i + 1]);
            }
        }
        lemma_all_space_trim_start(s.drop_first());
    }
}

/// `s` with every occurrence of `from` replaced by `to`, scanning left to
/// right without overlaps, as `str::replace` does for a non-empty pattern.
pub open spec fn replaced(s: Seq<char>, from: Seq<char>, to: Seq<char>) -> Seq<char>
    decreases s.len(),
{
    if s.len() == 0 || from.len() == 0 {
        s
    } else if is_prefix(from, s) {
        to + replaced(s.skip(from.len() as int), from, to)
    } else {
        seq![s[0]] + replaced(s.drop_first(), from, to)
    }
}

/// The first index at or after `from` where `p` occurs in `s`.
pub open spec fn find_spec(s: Seq<char>, p: Seq<char>, from: int) -> Option<int>
    decreases s.len() - from,
{
    if from < 0 || from + p.len() > s.len() {
        None
    } else if occurs_at(s, p, from) {
        Some(from)
    } else if from >= s.len() {
        None
    } else {
        find_spec(s, p, from + 1)
    }
}

// --- Executable helpers ------------------------------------------------------

/// The characters of `s`, in order.
pub fn chars_of(s: &str) -> (v: Vec<char>)
    ensures
        v@ == s@,
{
    let mut v: Vec<char> = Vec::new();
    for c in it: s.chars()
        invariant
            v@ == it.seq().take(it.index()),
            it.seq() == s@,
    {
        v.push(c);
    }
    v
}

/// Append one character, as `String::push`.
#[verifier::external_body]
pub fn push_char(s: &mut String, c: char)
    ensures
        final(s)@ == old(s)@.push(c),
{
    s.push(c);
}

/// Append a string slice, as `String::push_str`.
#[verifier::external_body]
pub fn push_str(s: &mut String, t: &str)
    ensures
        final(s)@ == old(s)@ + t@,
{
    s.push_str(t);
}

/// A string made of the characters `v[from..to]`.
pub fn string_of_range(v: &[char], from: usize, to: usize) -> (r: String)
    requires
        from <= to <= v@.len(),
    ensures
        r@ == v@.subrange(from as int, to as int),
{
    let mut r = String::new();
    let mut i = from;
    while i < to
        invariant
            from <= i <= to <= v@.len(),
            r@ == v@.subrange(from as int, i as int),
        decreases to - i,
    {
        push_char(&mut r, v[i]);
        assert(v@.subrange(from as int, i + 1) =~= v@.subrange(from as int, i as int).push(v@[i as int]));
        i += 1;
    }
    r
}

/// A string made of all the characters of `v`.
pub fn string_of(v: &[char]) -> (r: String)
    ensures
        r@ == v@,
{
    let r = string_of_range(v, 0, v.len());
    assert(v@.subrange(0, v@.len() as int) =~= v@);
    r
}

/// An owned copy of `s`.
pub fn owned(s: &str) -> (r: String)
    ensures
        r@ == s@,
{
    s.to_owned()
}

/// Concatenate two texts into a new string.
pub fn concat2(a: &str, b: &str) -> (r: String)
    ensures
        r@ == a@ + b@,
{
    let mut r = owned(a);
    push_str(&mut r, b);
    r
}

/// Concatenate three texts into a new string.
pub fn concat3(a: &str, b: &str, c: &str) -> (r: String)
    ensures
        r@ == a@ + b@ + c@,
{
    let mut r = owned(a);
    push_str(&mut r, b);
    push_str(&mut r, c);
    r
}

/// Whether two character slices are equal.
pub fn seq_eq(a: &[char], b: &[char]) -> (r: bool)
    ensures
        r == (a@ == b@),
{
    if a.len() != b.len() {
        return false;
    }
    let mut i: usize = 0;
    while i < a.len()
        invariant
            a@.len() == b@.len(),
            i <= a@.len(),
            forall|j: int| 0 <= j < i ==> a@[j] == b@[j],
        decreases a.len() - i,
    {
        if a[i] != b[i] {
            return false;
        }
        i += 1;
    }
    assert(a@ =~= b@);
    true
}

/// Whether two texts are equal.
pub fn str_eq(a: &str, b: &str) -> (r: bool)
    ensures
        r == (a@ == b@),
{
    let va = chars_of(a);
    let vb = chars_of(b);
    seq_eq(va.as_slice(), vb.as_slice())
}

/// Whether `p` occurs in `s` at index `i`.
pub fn matches_at(s: &[char], p: &[char], i: usize) -> (r: bool)
    ensures
        r == occurs_at(s@, p@, i as int),
{
    if i > s.len() || p.len() > s.len() - i {
        return false;
    }
    let mut k: usize = 0;
    let n = s.len();
    while k < p.len()
        invariant
            n == s@.len(),
            i + p@.len() <= s@.len(),
            k <= p@.len(),
            forall|j: int| 0 <= j < k ==> s@[i + j] == p@[j],
        decreases p.len() - k,
    {
        assert(i + k < s@.len());
        if s[i + k] != p[k] {
            assert(s@.subrange(i as int, i + p@.len())[k as int] != p@[k as int]);
            return false;
        }
        k += 1;
    }
    assert(s@.subrange(i as int, i + p@.len()) =~= p@);
    true
}

/// The first index at or after `from` where `p` occurs in `s`.
pub fn find_from(s: &[char], p: &[char], from: usize) -> (r: Option<usize>)
    ensures
        match r {
            Some(i) => first_occurrence_from(s@, p@, from as int, i as int),
            None => absent_from(s@, p@, from as int),
        },
{
    if from > s.len() {
        return None;
    }
    let mut i = from;
    loop
        invariant
            from <= i <= s@.len(),
            forall|j: int| from <= j < i ==> !occurs_at(s@, p@, j),
        decreases s.len() - i,
    {
        if matches_at(s, p, i) {
            return Some(i);
        }
        if i == s.len() {
            return None;
        }
        i += 1;
    }
}

/// Whether `p` occurs anywhere in `s`.
pub fn contains_seq(s: &[char], p: &[char]) -> (r: bool)
    ensures
        r == contains(s@, p@),
{
    match find_from(s, p, 0) {
        Some(i) => {
            assert(occurs_at(s@, p@, i as int));
            true
        },
        None => {
            assert forall|j: int| !occurs_at(s@, p@, j) by {
                if j < 0 {
                } else {
                    assert(!occurs_at(s@, p@, j));
                }
            }
            false
        },
    }
}

/// Whether the text `p` occurs anywhere in the text `s`.
pub fn str_contains(s: &str, p: &str) -> (r: bool)
    ensures
        r == contains(s@, p@),
{
    let vs = chars_of(s);
    let vp = chars_of(p);
    contains_seq(vs.as_slice(), vp.as_slice())
}

/// Whether `p` is a prefix of `s`.
pub fn starts_with(s: &[char], p: &[char]) -> (r: bool)
    ensures
        r == is_prefix(p@, s@),
{
    let r = matches_at(s, p, 0);
    r
}

/// Whether `p` is a suffix of `s`.
pub fn ends_with(s: &[char], p: &[char]) -> (r: bool)
    ensures
        r == is_suffix(p@, s@),
{
    if p.len() > s.len() {
        return false;
    }
    matches_at(s, p, s.len() - p.len())
}

/// Whether the text `s` starts with the text `p`.
pub fn str_starts_with(s: &str, p: &str) -> (r: bool)
    ensures
        r == is_prefix(p@, s@),
{
    let vs = chars_of(s);
    let vp = chars_of(p);
    starts_with(vs.as_slice(), vp.as_slice())
}

/// Whether `c` is whitespace, as `char::is_whitespace`.
pub fn is_space_char(c: char) -> (r: bool)
    ensures
        r == is_space(c),
{
    ('\u{9}' <= c && c <= '\u{d}') || c == ' ' || c == '\u{85}' || c == '\u{a0}' || c == '\u{1680}'
        || ('\u{2000}' <= c && c <= '\u{200a}') || c == '\u{2028}' || c == '\u{2029}' || c
        == '\u{202f}' || c == '\u{205f}' || c == '\u{3000}'
}

/// The bounds `[start, end)` of `trim(s)` within `s`.
pub fn trim_bounds(s: &[char]) -> (r: (usize, usize))
    ensures
        r.0 <= r.1 <= s@.len(),
        s@.subrange(r.0 as int, r.1 as int) == trim(s@),
{
    let mut start: usize = 0;
    assert(s@.subrange(0, s@.len() as int) =~= s@);
    while start < s.len() && is_space_char(s[start])
        invariant
            start <= s@.len(),
            trim_start(s@) == trim_start(s@.subrange(start as int, s@.len() as int)),
        decreases s.len() - start,
    {
        assert(s@.subrange(start as int, s@.len() as int).drop_first() =~= s@.subrange(start + 1, s@.len() as int));
        start += 1;
    }
    let ghost rest = s@.subrange(start as int, s@.len() as int);
    assert(trim_start(rest) == rest);
    let mut end: usize = s.len();
    while end > start && is_space_char(s[end - 1])
        invariant
            start <= end <= s@.len(),
            rest == s@.subrange(start as int, s@.len() as int),
            trim_end(rest) == trim_end(s@.subrange(start as int, end as int)),
        decreases end - start,
    {
        assert(s@.subrange(start as int, end as int).drop_last() =~= s@.subrange(start as int, end - 1));
        end -= 1;
    }
    assert(trim_end(s@.subrange(start as int, end as int)) == s@.subrange(start as int, end as int));
    (start, end)
}

/// `s` without leading and trailing whitespace.
pub fn trimmed(s: &str) -> (r: String)
    ensures
        r@ == trim(s@),
{
    let v = chars_of(s);
    let (a, b) = trim_bounds(v.as_slice());
    string_of_range(v.as_slice(), a, b)
}

/// Whether `s` is empty or all whitespace.
pub fn is_blank(s: &str) -> (r: bool)
    ensures
        r == (trim(s@).len() == 0),
{
    let v = chars_of(s);
    let (a, b) = trim_bounds(v.as_slice());
    a == b
}

/// ASCII lower-casing of one character.
pub fn ascii_lower_char(c: char) -> (r: char)
    ensures
        r == ascii_lower(c),
{
    if 'A' <= c && c <= 'Z' {
        proof {
            assert((c as u32) + 32 <= 0x7f);
        }
        ((c as u32 + 32) as u8) as char
    } else {
        c
    }
}

/// ASCII case-insensitive equality of two texts.
pub fn str_eq_ignore_ascii_case(a: &str, b: &str) -> (r: bool)
    ensures
        r == eq_ignore_ascii_case(a@, b@),
{
    let va = chars_of(a);
    let vb = chars_of(b);
    if va.len() != vb.len() {
        return false;
    }
    let mut i: usize = 0;
    while i < va.len()
        invariant
            va@ == a@,
            vb@ == b@,
            va@.len() == vb@.len(),
            i <= va@.len(),
            forall|j: int| 0 <= j < i ==> ascii_lower(#[trigger] va@[j]) == ascii_lower(vb@[j]),
        decreases va.len() - i,
    {
        if ascii_lower_char(va[i]) != ascii_lower_char(vb[i]) {
            return false;
        }
        i += 1;
    }
    true
}

/// How many times `c` occurs in `s`.
pub fn count_of(s: &[char], c: char) -> (r: usize)
    ensures
        r == count_char(s@, c),
{
    let mut n: usize = 0;
    let mut i: usize = 0;
    while i < s.len()
        invariant
            i <= s@.len(),
            n == count_char(s@.subrange(0, i as int), c),
            n <= i,
        decreases s.len() - i,
    {
        assert(s@.subrange(0, i + 1).drop_last() =~= s@.subrange(0, i as int));
        if s[i] == c {
            n += 1;
        }
        i += 1;
    }
    assert(s@.subrange(0, s@.len() as int) =~= s@);
    n
}

/// `s` with every occurrence of the non-empty `from` replaced by `to`.
pub fn replace_all(s: &str, from: &str, to: &str) -> (r: String)
    requires
        from@.len() > 0,
    ensures
        r@ == replaced(s@, from@, to@),
{
    let cs = chars_of(s);
    let fs = chars_of(from);
    let mut out = String::new();
    let mut i: usize = 0;
    assert(cs@.skip(0) =~= cs@);
    assert(out@ + replaced(cs@.skip(0), fs@, to@) =~= replaced(cs@, fs@, to@));
    while i < cs.len()
        invariant
            cs@ == s@,
            fs@ == from@,
            fs@.len() > 0,
            i <= cs@.len(),
            replaced(s@, from@, to@) == out@ + replaced(cs@.skip(i as int), fs@, to@),
        decreases cs.len() - i,
    {
        let ghost rest = cs@.skip(i as int);
        let ghost before = out@;
        if matches_at(cs.as_slice(), fs.as_slice(), i) {
            assert(cs@.subrange(i as int, i + fs@.len()) =~= rest.subrange(0, fs@.len() as int));
            assert(is_prefix(fs@, rest));
            assert(rest.skip(fs@.len() as int) =~= cs@.skip(i + fs@.len()));
            push_str(&mut out, to);
            assert(before + (to@ + replaced(rest.skip(fs@.len() as int), fs@, to@))
                =~= out@ + replaced(cs@.skip(i + fs@.len()), fs@, to@));
            i = i + fs.len();
        } else {
            assert(!is_prefix(fs@, rest)) by {
                if is_prefix(fs@, rest) {
                    assert(cs@.subrange(i as int, i + fs@.len()) =~= rest.subrange(0, fs@.len() as int));
                }
            }
            assert(rest.drop_first() =~= cs@.skip(i + 1));
            push_char(&mut out, cs[i]);
            assert(before + (seq![rest[0]] + replaced(rest.drop_first(), fs@, to@))
                =~= out@ + replaced(cs@.skip(i + 1), fs@, to@));
            i = i + 1;
        }
    }
    assert(cs@.skip(i as int) =~= Seq::<char>::empty());
    assert(out@ + Seq::<char>::empty() =~= out@);
    out
}

/// The text `format!("{s:?}")` gives for a string: quoted, with escapes.
pub uninterp spec fn debug_text(s: Seq<char>) -> Seq<char>;

/// `s` quoted and escaped as its `Debug` form writes it.
#[verifier::external_body]
pub fn debug_quoted(s: &str) -> (r: String)
    ensures
        r@ == debug_text(s@),
{
    format!("{s:?}")
}

/// The number of characters of `s`.
pub fn char_count(s: &str) -> (r: usize)
    ensures
        r == s@.len(),
{
    chars_of(s).len()
}

/// The first `n` characters of `s` (all of them when it is shorter).
pub fn take_chars(s: &str, n: usize) -> (r: String)
    ensures
        r@ == s@.take(if n <= s@.len() { n as int } else { s@.len() as int }),
{
    let v = chars_of(s);
    let end = if n <= v.len() { n } else { v.len() };
    string_of_range(v.as_slice(), 0, end)
}

/// The first index at or after `from` where `p` occurs in `s`.
pub fn find_index(s: &[char], p: &[char], from: usize) -> (r: Option<usize>)
    ensures
        match r {
            Some(i) => find_spec(s@, p@, from as int) == Some(i as int),
            None => find_spec(s@, p@, from as int) is None,
        },
{
    let n = s.len();
    let mut i = from;
    while i <= n && p.len() <= n - i
        invariant
            n == s@.len(),
            from <= i,
            find_spec(s@, p@, from as int) == find_spec(s@, p@, i as int),
        decreases n + 1 - i,
    {
        if matches_at(s, p, i) {
            return Some(i);
        }
        if i == n {
            return None;
        }
        i += 1;
    }
    None
}

/// `s` without its trailing whitespace.
pub fn trimmed_end(s: &str) -> (r: String)
    ensures
        r@ == trim_end(s@),
{
    let v = chars_of(s);
    let mut end: usize = v.len();
    assert(v@.subrange(0, v@.len() as int) =~= v@);
    while end > 0 && is_space_char(v[end - 1])
        invariant
            end <= v@.len(),
            v@ == s@,
            trim_end(s@) == trim_end(v@.subrange(0, end as int)),
        decreases end,
    {
        assert(v@.subrange(0, end as int).drop_last() =~= v@.subrange(0, end - 1));
        end -= 1;
    }
    string_of_range(v.as_slice(), 0, end)
}

/// `s` without the prefix `p`, when it has it.
pub fn strip_prefix(s: &str, p: &str) -> (r: Option<String>)
    ensures
        match r {
            Some(x) => is_prefix(p@, s@) && x@ == s@.skip(p@.len() as int),
            None => !is_prefix(p@, s@),
        },
{
    if str_starts_with(s, p) {
        let v = chars_of(s);
        let n = char_count(p);
        let rest = string_of_range(v.as_slice(), n, v.len());
        assert(rest@ =~= s@.skip(p@.len() as int));
        Some(rest)
    } else {
        None
    }
}


/// Parts joined with `sep` between them, as `[&str]::join` does.
pub open spec fn joined_by(parts: Seq<Seq<char>>, sep: Seq<char>) -> Seq<char>
    decreases parts.len(),
{
    if parts.len() == 0 {
        Seq::empty()
    } else if parts.len() == 1 {
        parts[0]
    } else {
        joined_by(parts.drop_last(), sep) + sep + parts.last()
    }
}

/// The character sequences of a list of strings.
pub open spec fn string_views(v: Seq<String>) -> Seq<Seq<char>> {
    v.map_values(|s: String| s@)
}

/// The strings of `parts` with `sep` between them.
pub fn join_strings(parts: &Vec<String>, sep: &str) -> (r: String)
    ensures
        r@ == joined_by(string_views(parts@), sep@),
{
    let ghost ps = string_views(parts@);
    let mut out = String::new();
    let mut i: usize = 0;
    assert(ps.take(0) =~= Seq::<Seq<char>>::empty());
    while i < parts.len()
        invariant
            i <= parts@.len(),
            ps == string_views(parts@),
            out@ == joined_by(ps.take(i as int), sep@),
        decreases parts.len() - i,
    {
        assert(ps.take(i + 1).drop_last() =~= ps.take(i as int));
        if i > 0 {
            push_str(&mut out, sep);
        }
        push_str(&mut out, parts[i].as_str());
        i += 1;
    }
    assert(ps.take(i as int) =~= ps);
    out
}

} // verus!
