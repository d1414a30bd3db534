//! Byte spans of JSON values, found by JSON pointer.
//!
//! A validator reports failures by pointer (`/release/notes`); a useful
//! diagnostic needs the byte range of the offending token in the original
//! text. This is a position-only scanner over the raw bytes: it tracks
//! where values start and end and decodes only object keys, which it must
//! compare with pointer steps. Malformed input yields `None`.
//!
//! The scanner's meaning is given by the spec functions [`scan_value`],
//! [`scan_members`], [`scan_items`] and [`scan_key_members`]: a functional
//! reading of the byte grammar, position by position.

use vstd::prelude::*;
use vstd::utf8::{decode_utf8, valid_utf8};

use crate::conv::{
    char_from_u32, is_scalar_value, parse_u32_radix, parse_usize, u32_in_radix, usize_of,
    utf8_str,
};
use crate::text::{chars_of, push_char, push_str, replace_all, str_eq};
use super::model::strings_view;

verus! {

/// One step in a JSON pointer.
#[derive(Debug, Clone, PartialEq, Eq)]
pub enum Step {
    /// An object property.
    Prop(String),
    /// An array index.
    Index(usize),
}

/// A pointer step as the grammar reads it.
pub enum StepView {
    Prop(Seq<char>),
    Index(usize),
}

impl View for Step {
    type V = StepView;

    open spec fn view(&self) -> StepView {
        match self {
            Step::Prop(p) => StepView::Prop(p@),
            Step::Index(i) => StepView::Index(*i),
        }
    }
}

pub open spec fn steps_view(s: Seq<Step>) -> Seq<StepView> {
    s.map_values(|x: Step| x@)
}

/// The property steps with these names.
pub open spec fn prop_path(names: Seq<Seq<char>>) -> Seq<StepView> {
    names.map_values(|n: Seq<char>| StepView::Prop(n))
}

/// A byte range in a source text.
#[derive(Debug, Clone, Copy, PartialEq, Eq)]
pub struct Span {
    pub offset: usize,
    pub len: usize,
}

impl Span {
    /// The span of `len` bytes from `offset`.
    pub fn new(offset: usize, len: usize) -> (r: Span)
        ensures
            r.offset == offset,
            r.len == len,
    {
        Span { offset, len }
    }

    /// Where the span starts.
    pub fn offset(&self) -> (r: usize)
        ensures
            r == self.offset,
    {
        self.offset
    }

    /// How many bytes the span covers.
    pub fn len(&self) -> (r: usize)
        ensures
            r == self.len,
    {
        self.len
    }
}

// --- The byte grammar ---------------------------------------------------------

pub open spec fn is_ascii_ws(c: u8) -> bool {
    c == 0x20 || c == 0x09 || c == 0x0a || c == 0x0c || c == 0x0d
}

/// The first position at or after `p` that is not ASCII whitespace.
pub open spec fn skip_ws(b: Seq<u8>, p: int) -> int
    decreases b.len() - p,
{
    if 0 <= p < b.len() && is_ascii_ws(b[p]) {
        skip_ws(b, p + 1)
    } else {
        p
    }
}

/// How many bytes a UTF-8 sequence that starts with `c` claims.
pub open spec fn utf8_width(c: u8) -> int {
    if c <= 0x7f {
        1
    } else if 0xc0 <= c <= 0xdf {
        2
    } else if 0xe0 <= c <= 0xef {
        3
    } else {
        4
    }
}

/// The character a one-letter escape (`\n`, `\"`, ...) stands for.
pub open spec fn escaped(c: u8) -> Option<char> {
    if c == 0x6e {
        Some('\n')
    } else if c == 0x74 {
        Some('\t')
    } else if c == 0x72 {
        Some('\r')
    } else if c == 0x62 {
        Some('\u{8}')
    } else if c == 0x66 {
        Some('\u{c}')
    } else if c == 0x2f {
        Some('/')
    } else if c == 0x5c {
        Some('\\')
    } else if c == 0x22 {
        Some('"')
    } else {
        None
    }
}

/// The character of a `\uXXXX` escape, given its four bytes. A value that
/// is no Unicode scalar (a lone surrogate) reads as U+FFFD.
pub open spec fn unicode_escape(hex: Seq<u8>) -> Option<char> {
    if valid_utf8(hex) {
        match u32_in_radix(decode_utf8(hex), 16) {
            Some(n) => if is_scalar_value(n) {
                Some(n as char)
            } else {
                Some('\u{fffd}')
            },
            None => None,
        }
    } else {
        None
    }
}

pub open spec fn prepend(
    c: Seq<char>,
    r: Option<(int, Seq<char>)>,
) -> Option<(int, Seq<char>)> {
    match r {
        Some((e, s)) => Some((e, c + s)),
        None => None,
    }
}

/// A string literal's content from `q` on: the position just after its
/// closing quote, and the decoded characters.
pub open spec fn string_rest(b: Seq<u8>, q: int) -> Option<(int, Seq<char>)>
    decreases b.len() - q,
{
    if q < 0 || q >= b.len() {
        None
    } else if b[q] == 0x22 {
        Some((q + 1, Seq::empty()))
    } else if b[q] == 0x5c {
        if q + 1 >= b.len() {
            None
        } else if b[q + 1] == 0x75 {
            if q + 6 > b.len() {
                None
            } else {
                match unicode_escape(b.subrange(q + 2, q + 6)) {
                    Some(c) => prepend(seq![c], string_rest(b, q + 6)),
                    None => None,
                }
            }
        } else {
            match escaped(b[q + 1]) {
                Some(c) => prepend(seq![c], string_rest(b, q + 2)),
                None => None,
            }
        }
    } else {
        let w = utf8_width(b[q]);
        if w == 1 {
            prepend(seq![b[q] as char], string_rest(b, q + 1))
        } else if q + w > b.len() {
            None
        } else if valid_utf8(b.subrange(q, q + w)) {
            prepend(decode_utf8(b.subrange(q, q + w)), string_rest(b, q + w))
        } else {
            None
        }
    }
}

/// A byte that ends a bare scalar (number, `true`, `false`, `null`).
pub open spec fn ends_scalar(c: u8) -> bool {
    is_ascii_ws(c) || c == 0x2c || c == 0x7d || c == 0x5d
}

/// The end of a bare scalar that starts at `p`.
pub open spec fn scalar_end(b: Seq<u8>, p: int) -> int
    decreases b.len() - p,
{
    if 0 <= p < b.len() && !ends_scalar(b[p]) {
        scalar_end(b, p + 1)
    } else {
        p
    }
}

/// The property named by step `k`, if it is one.
pub open spec fn prop_target(path: Seq<StepView>, k: int) -> Option<Seq<char>> {
    if 0 <= k < path.len() {
        match path[k] {
            StepView::Prop(p) => Some(p),
            StepView::Index(_) => None,
        }
    } else {
        None
    }
}

/// The array index named by step `k`: an index step, or a property whose
/// name reads as one.
pub open spec fn index_target(path: Seq<StepView>, k: int) -> Option<int> {
    if 0 <= k < path.len() {
        match path[k] {
            StepView::Index(i) => Some(i as int),
            StepView::Prop(p) => match usize_of(p) {
                Some(i) => Some(i as int),
                None => None,
            },
        }
    } else {
        None
    }
}

pub proof fn lemma_skip_ws(b: Seq<u8>, p: int)
    ensures
        skip_ws(b, p) >= p,
        0 <= p <= b.len() ==> skip_ws(b, p) <= b.len(),
        0 <= p ==> (skip_ws(b, p) < b.len() ==> !is_ascii_ws(b[skip_ws(b, p)])),
    decreases b.len() - p,
{
    if 0 <= p < b.len() && is_ascii_ws(b[p]) {
        lemma_skip_ws(b, p + 1);
    }
}

pub proof fn lemma_scalar_end(b: Seq<u8>, p: int)
    ensures
        scalar_end(b, p) >= p,
        0 <= p <= b.len() ==> scalar_end(b, p) <= b.len(),
    decreases b.len() - p,
{
    if 0 <= p < b.len() && !ends_scalar(b[p]) {
        lemma_scalar_end(b, p + 1);
    }
}

pub proof fn lemma_string_rest(b: Seq<u8>, q: int)
    ensures
        string_rest(b, q) matches Some((e, _)) ==> q < e <= b.len(),
    decreases b.len() - q,
{
    if 0 <= q < b.len() && b[q] != 0x22 {
        if b[q] == 0x5c {
            if q + 6 <= b.len() {
                lemma_string_rest(b, q + 6);
            }
            if q + 2 <= b.len() {
                lemma_string_rest(b, q + 2);
            }
        } else {
            let w = utf8_width(b[q]);
            if q + w <= b.len() {
                lemma_string_rest(b, q + w);
            }
        }
    }
}

/// Scan one value whose text starts at or after `p` (after whitespace).
/// With no steps left (`k == path.len()`), the result is the value's span;
/// otherwise the scan descends along `path[k..]`.
pub open spec fn scan_value(b: Seq<u8>, p: int, path: Seq<StepView>, k: int) -> Option<(int, int)>
    decreases b.len() - p, 0int,
{
    let s = skip_ws(b, p);
    proof {
        lemma_skip_ws(b, p);
    }
    if s < 0 || s >= b.len() {
        None
    } else if b[s] == 0x7b {
        scan_members(b, s + 1, s, path, k)
    } else if b[s] == 0x5b {
        scan_items(b, s + 1, s, path, k, 0)
    } else if b[s] == 0x22 {
        match string_rest(b, s + 1) {
            Some((e, _)) => if k == path.len() {
                Some((s, e))
            } else {
                None
            },
            None => None,
        }
    } else {
        let e = scalar_end(b, s);
        if e == s {
            None
        } else if k == path.len() {
            Some((s, e))
        } else {
            None
        }
    }
}

/// The members of an object that opened at `start`, from `p` on.
pub open spec fn scan_members(
    b: Seq<u8>,
    p: int,
    start: int,
    path: Seq<StepView>,
    k: int,
) -> Option<(int, int)>
    decreases b.len() - p, 1int,
{
    let q = skip_ws(b, p);
    proof {
        lemma_skip_ws(b, p);
    }
    if q < 0 || q >= b.len() {
        None
    } else if b[q] == 0x7d {
        if k == path.len() {
            Some((start, q + 1))
        } else {
            None
        }
    } else if b[q] == 0x2c {
        scan_members(b, q + 1, start, path, k)
    } else if b[q] == 0x22 {
        proof {
            lemma_string_rest(b, q + 1);
        }
        match string_rest(b, q + 1) {
            None => None,
            Some((e, key)) => {
                let c = skip_ws(b, e);
                proof {
                    lemma_skip_ws(b, e);
                }
                if c >= b.len() || b[c] != 0x3a {
                    None
                } else if prop_target(path, k) == Some(key) {
                    scan_value(b, c + 1, path, k + 1)
                } else {
                    match scan_value(b, c + 1, path, path.len() as int) {
                        None => None,
                        Some((_, ve)) => if p < ve <= b.len() {
                            scan_members(b, ve, start, path, k)
                        } else {
                            None
                        },
                    }
                }
            },
        }
    } else {
        None
    }
}

/// The items of an array that opened at `start`, from `p` on; `i` items
/// have been passed.
pub open spec fn scan_items(
    b: Seq<u8>,
    p: int,
    start: int,
    path: Seq<StepView>,
    k: int,
    i: int,
) -> Option<(int, int)>
    decreases b.len() - p, 1int,
{
    let q = skip_ws(b, p);
    proof {
        lemma_skip_ws(b, p);
    }
    if q < 0 || q >= b.len() {
        None
    } else if b[q] == 0x5d {
        if k == path.len() {
            Some((start, q + 1))
        } else {
            None
        }
    } else if b[q] == 0x2c {
        scan_items(b, q + 1, start, path, k, i)
    } else if index_target(path, k) == Some(i) {
        scan_value(b, q, path, k + 1)
    } else {
        match scan_value(b, q, path, path.len() as int) {
            None => None,
            Some((_, ve)) => if p < ve <= b.len() {
                scan_items(b, ve, start, path, k, i + 1)
            } else {
                None
            },
        }
    }
}

/// The key token named `key` among the members of an object, from `p` on;
/// `path` only supplies the empty remainder for values that are passed.
pub open spec fn scan_key_members(
    b: Seq<u8>,
    p: int,
    key: Seq<char>,
    path: Seq<StepView>,
) -> Option<(int, int)>
    decreases b.len() - p,
{
    let q = skip_ws(b, p);
    proof {
        lemma_skip_ws(b, p);
    }
    if q < 0 || q >= b.len() {
        None
    } else if b[q] == 0x7d {
        None
    } else if b[q] == 0x2c {
        scan_key_members(b, q + 1, key, path)
    } else if b[q] == 0x22 {
        proof {
            lemma_string_rest(b, q + 1);
        }
        match string_rest(b, q + 1) {
            None => None,
            Some((e, k)) => {
                let c = skip_ws(b, e);
                if c >= b.len() || b[c] != 0x3a {
                    None
                } else if k == key {
                    Some((q, e))
                } else {
                    match scan_value(b, c + 1, path, path.len() as int) {
                        None => None,
                        Some((_, ve)) => if p < ve <= b.len() {
                            scan_key_members(b, ve, key, path)
                        } else {
                            None
                        },
                    }
                }
            },
        }
    } else {
        None
    }
}

/// The span of the value at `path` in the bytes `b`.
pub open spec fn located(b: Seq<u8>, path: Seq<StepView>) -> Option<(int, int)> {
    scan_value(b, skip_ws(b, 0), path, 0)
}

/// The span of the key token `key` in the object at `parent`.
pub open spec fn located_key(b: Seq<u8>, parent: Seq<StepView>, key: Seq<char>) -> Option<(int, int)> {
    let p0 = skip_ws(b, 0);
    let p1 = if parent.len() > 0 {
        match scan_value(b, p0, parent, 0) {
            Some((s, _)) => Some(s),
            None => None,
        }
    } else {
        Some(p0)
    };
    match p1 {
        None => None,
        Some(p1) => {
            let p2 = skip_ws(b, p1);
            if p2 < 0 || p2 >= b.len() || b[p2] != 0x7b {
                None
            } else {
                scan_key_members(b, p2 + 1, key, parent)
            }
        },
    }
}

pub open spec fn as_span(r: Option<(int, int)>) -> Option<Span> {
    match r {
        Some((s, e)) => Some(Span { offset: s as usize, len: (e - s) as usize }),
        None => None,
    }
}

// --- JSON pointers ------------------------------------------------------------------

/// Split `s` at every `/`; `cur` is the segment read so far.
pub open spec fn split_acc(s: Seq<char>, cur: Seq<char>) -> Seq<Seq<char>>
    decreases s.len(),
{
    if s.len() == 0 {
        seq![cur]
    } else if s[0] == '/' {
        seq![cur] + split_acc(s.drop_first(), Seq::empty())
    } else {
        split_acc(s.drop_first(), cur.push(s[0]))
    }
}

/// The `/`-separated segments of `s`, as `str::split('/')` yields them.
pub open spec fn segments(s: Seq<char>) -> Seq<Seq<char>> {
    split_acc(s, Seq::empty())
}

/// A reference token with its escapes undone: `~1` first, then `~0`.
pub open spec fn decode_token(t: Seq<char>) -> Seq<char> {
    crate::text::replaced(crate::text::replaced(t, "~1"@, "/"@), "~0"@, "~"@)
}

/// The decoded tokens among `segs` that are kept: the non-empty ones, and
/// every one when the pointer is `/` itself.
pub open spec fn kept_tokens(segs: Seq<Seq<char>>, root: bool) -> Seq<Seq<char>>
    decreases segs.len(),
{
    if segs.len() == 0 {
        Seq::empty()
    } else {
        let rest = kept_tokens(segs.drop_last(), root);
        if segs.last().len() > 0 || root {
            rest.push(decode_token(segs.last()))
        } else {
            rest
        }
    }
}

/// The property names a pointer designates, in order.
pub open spec fn pointer_names(p: Seq<char>) -> Seq<Seq<char>> {
    kept_tokens(segments(p).drop_first(), p == "/"@)
}

pub proof fn lemma_split_acc_len(s: Seq<char>, cur: Seq<char>)
    ensures
        split_acc(s, cur).len() >= 1,
    decreases s.len(),
{
    if s.len() > 0 {
        if s[0] == '/' {
            lemma_split_acc_len(s.drop_first(), Seq::empty());
        } else {
            lemma_split_acc_len(s.drop_first(), cur.push(s[0]));
        }
    }
}

/// The `/`-separated segments of `s`.
pub(crate) fn split_slash(s: &str) -> (r: Vec<String>)
    ensures
        strings_view(r@) == segments(s@),
{
    let cs = chars_of(s);
    let mut segs: Vec<String> = Vec::new();
    let mut cur = String::new();
    let mut i: usize = 0;
    assert(cs@.skip(0) =~= cs@);
    assert(strings_view(segs@) + split_acc(cs@.skip(0), cur@) =~= segments(s@));
    while i < cs.len()
        invariant
            cs@ == s@,
            i <= cs@.len(),
            segments(s@) == strings_view(segs@) + split_acc(cs@.skip(i as int), cur@),
        decreases cs.len() - i,
    {
        let ghost rest = cs@.skip(i as int);
        let ghost before = strings_view(segs@);
        assert(rest.drop_first() =~= cs@.skip(i + 1));
        if cs[i] == '/' {
            let done = cur;
            cur = String::new();
            segs.push(done);
            assert(strings_view(segs@) =~= before.push(done@));
            assert(before + (seq![done@] + split_acc(rest.drop_first(), Seq::empty()))
                =~= strings_view(segs@) + split_acc(cs@.skip(i + 1), cur@));
        } else {
            push_char(&mut cur, cs[i]);
        }
        i += 1;
    }
    assert(cs@.skip(i as int) =~= Seq::<char>::empty());
    let ghost before = strings_view(segs@);
    let last = cur;
    segs.push(last);
    assert(strings_view(segs@) =~= before + seq![last@]);
    segs
}

/// Parse a JSON Pointer (RFC 6901) into steps.
///
/// Numeric steps stay ambiguous (`/items/0` could name a property `0`), so
/// every step is a property; [`locate`] reads one as an index when it meets
/// an array.
pub fn parse_pointer(pointer: &str) -> (r: Vec<Step>)
    ensures
        steps_view(r@) == prop_path(pointer_names(pointer@)),
{
    let root = str_eq(pointer, "/");
    let segs = split_slash(pointer);
    proof {
        lemma_split_acc_len(pointer@, Seq::empty());
        reveal_strlit("~1");
        reveal_strlit("~0");
    }
    let ghost all = strings_view(segs@);
    let mut out: Vec<Step> = Vec::new();
    let mut i: usize = 1;
    assert(all.subrange(1, 1) =~= Seq::<Seq<char>>::empty());
    while i < segs.len()
        invariant
            1 <= i <= segs@.len(),
            all == strings_view(segs@),
            all == segments(pointer@),
            root == (pointer@ == "/"@),
            "~1"@ == seq!['~', '1'],
            "~0"@ == seq!['~', '0'],
            steps_view(out@) == prop_path(kept_tokens(all.subrange(1, i as int), root)),
        decreases segs.len() - i,
    {
        let seg = &segs[i];
        assert(all.subrange(1, i + 1).drop_last() =~= all.subrange(1, i as int));
        assert(all.subrange(1, i + 1).last() == seg@);
        if !seg.as_str().is_empty() || root {
            let a = replace_all(seg.as_str(), "~1", "/");
            let b = replace_all(a.as_str(), "~0", "~");
            let ghost before = out@;
            let ghost bv = b@;
            out.push(Step::Prop(b));
            assert(steps_view(out@) =~= steps_view(before).push(StepView::Prop(bv)));
        }
        i += 1;
    }
    assert(all.subrange(1, all.len() as int) =~= all.drop_first());
    out
}

/// A string literal that starts at `p`: the position after it, and its text.
pub open spec fn scan_string(b: Seq<u8>, p: int) -> Option<(int, Seq<char>)> {
    if 0 <= p < b.len() && b[p] == 0x22 {
        string_rest(b, p + 1)
    } else {
        None
    }
}

proof fn lemma_prepend_twice(a: Seq<char>, c: Seq<char>, r: Option<(int, Seq<char>)>)
    ensures
        prepend(a, prepend(c, r)) == prepend(a + c, r),
{
    if let Some((e, x)) = r {
        assert(a + (c + x) =~= (a + c) + x);
    }
}

// --- The scanner ----------------------------------------------------------------

struct Scanner<'a> {
    b: &'a [u8],
    pos: usize,
}

fn is_ws_byte(c: u8) -> (r: bool)
    ensures
        r == is_ascii_ws(c),
{
    c == 0x20 || c == 0x09 || c == 0x0a || c == 0x0c || c == 0x0d
}

fn ends_scalar_byte(c: u8) -> (r: bool)
    ensures
        r == ends_scalar(c),
{
    is_ws_byte(c) || c == 0x2c || c == 0x7d || c == 0x5d
}

impl<'a> Scanner<'a> {
    fn ws(&mut self)
        requires
            old(self).pos <= old(self).b@.len(),
        ensures
            final(self).b == old(self).b,
            final(self).pos == skip_ws(old(self).b@, old(self).pos as int),
            final(self).pos <= final(self).b@.len(),
    {
        let ghost b0 = self.b;
        let ghost p0 = self.pos;
        proof {
            lemma_skip_ws(b0@, p0 as int);
        }
        while self.pos < self.b.len() && is_ws_byte(self.b[self.pos])
            invariant
                self.b == b0,
                old(self).b == b0,
                old(self).pos == p0,
                p0 <= self.pos <= self.b@.len(),
                skip_ws(b0@, self.pos as int) == skip_ws(b0@, p0 as int),
            decreases self.b@.len() - self.pos,
        {
            self.pos += 1;
        }
    }

    fn peek(&self) -> (r: Option<u8>)
        ensures
            r == (if self.pos < self.b@.len() {
                Some(self.b@[self.pos as int])
            } else {
                None
            }),
    {
        if self.pos < self.b.len() {
            Some(self.b[self.pos])
        } else {
            None
        }
    }

    fn bump(&mut self) -> (r: Option<u8>)
        requires
            old(self).pos <= old(self).b@.len(),
        ensures
            final(self).b == old(self).b,
            final(self).pos <= final(self).b@.len(),
            match r {
                Some(c) => old(self).pos < old(self).b@.len() && c == old(self).b@[old(self).pos as int]
                    && final(self).pos == old(self).pos + 1,
                None => old(self).pos == old(self).b@.len(),
            },
    {
        if self.pos < self.b.len() {
            let c = self.b[self.pos];
            self.pos += 1;
            Some(c)
        } else {
            None
        }
    }

    /// Consume a string literal: its span, quotes included, and its text.
    fn string(&mut self) -> (r: Option<(usize, usize, String)>)
        requires
            old(self).pos <= old(self).b@.len(),
        ensures
            final(self).b == old(self).b,
            final(self).pos <= final(self).b@.len(),
            match r {
                Some((s, e, out)) => s == old(self).pos && e == final(self).pos
                    && scan_string(old(self).b@, old(self).pos as int) == Some((e as int, out@)),
                None => scan_string(old(self).b@, old(self).pos as int) is None,
            },
    {
        let ghost b0 = self.b@;
        let ghost bref = self.b;
        let start = self.pos;
        let first = self.bump()?;
        if first != 0x22 {
            return None;
        }
        let mut out = String::new();
        assert(prepend(out@, string_rest(b0, self.pos as int)) == string_rest(b0, self.pos as int))
            by {
            if let Some((e, x)) = string_rest(b0, self.pos as int) {
                assert(out@ + x =~= x);
            }
        }
        loop
            invariant
                self.b == bref,
                old(self).b == bref,
                old(self).pos == start,
                bref@ == b0,
                start < self.pos <= b0.len(),
                scan_string(b0, start as int) == prepend(out@, string_rest(b0, self.pos as int)),
            decreases b0.len() - self.pos,
        {
            let ghost q = self.pos as int;
            let ghost before = out@;
            let c = match self.bump() {
                Some(c) => c,
                None => return None,
            };
            if c == 0x22 {
                assert(out@ + Seq::<char>::empty() =~= out@);
                return Some((start, self.pos, out));
            } else if c == 0x5c {
                let e = self.bump()?;
                if e == 0x75 {
                    if self.b.len() - self.pos < 4 {
                        return None;
                    }
                    let hex = &self.b[self.pos..self.pos + 4];
                    assert(hex@ == b0.subrange(q + 2, q + 6));
                    self.pos += 4;
                    let s = utf8_str(hex)?;
                    let n = parse_u32_radix(s, 16)?;
                    let ch = match char_from_u32(n) {
                        Some(ch) => {
                            assert(ch == n as char);
                            ch
                        },
                        None => '\u{fffd}',
                    };
                    assert(unicode_escape(b0.subrange(q + 2, q + 6)) == Some(ch));
                    push_char(&mut out, ch);
                    proof {
                        lemma_prepend_twice(before, seq![ch], string_rest(b0, q + 6));
                        assert(before.push(ch) =~= before + seq![ch]);
                    }
                } else {
                    let ch = if e == 0x6e {
                        '\n'
                    } else if e == 0x74 {
                        '\t'
                    } else if e == 0x72 {
                        '\r'
                    } else if e == 0x62 {
                        '\u{8}'
                    } else if e == 0x66 {
                        '\u{c}'
                    } else if e == 0x2f {
                        '/'
                    } else if e == 0x5c {
                        '\\'
                    } else if e == 0x22 {
                        '"'
                    } else {
                        return None;
                    };
                    assert(escaped(e) == Some(ch));
                    push_char(&mut out, ch);
                    proof {
                        lemma_prepend_twice(before, seq![ch], string_rest(b0, q + 2));
                        assert(before.push(ch) =~= before + seq![ch]);
                    }
                }
            } else {
                let len = utf8_len(c);
                if len == 1 {
                    let ch = c as char;
                    push_char(&mut out, ch);
                    proof {
                        lemma_prepend_twice(before, seq![ch], string_rest(b0, q + 1));
                        assert(before.push(ch) =~= before + seq![ch]);
                    }
                } else {
                    if len - 1 > self.b.len() - self.pos {
                        return None;
                    }
                    let end = self.pos - 1 + len;
                    let bytes = &self.b[self.pos - 1..end];
                    assert(bytes@ == b0.subrange(q, q + len));
                    let s = utf8_str(bytes)?;
                    push_str(&mut out, s);
                    self.pos = end;
                    proof {
                        lemma_prepend_twice(before, s@, string_rest(b0, q + len));
                    }
                }
            }
        }
    }
}

impl<'a> Scanner<'a> {
    /// Scan a value; with no steps left its span, otherwise descend.
    fn value(&mut self, path: &[Step], k: usize) -> (r: Option<(usize, usize)>)
        requires
            old(self).pos <= old(self).b@.len(),
            k <= path@.len(),
        ensures
            final(self).b == old(self).b,
            final(self).pos <= final(self).b@.len(),
            match r {
                Some((s, e)) => scan_value(old(self).b@, old(self).pos as int, steps_view(path@), k as int)
                    == Some((s as int, e as int)) && old(self).pos <= s < e <= old(self).b@.len()
                    && (k == path@.len() ==> final(self).pos == e),
                None => scan_value(old(self).b@, old(self).pos as int, steps_view(path@), k as int) is None,
            },
        decreases old(self).b@.len() - old(self).pos, 0int,
    {
        let ghost b0 = self.b@;
        let ghost p0 = self.pos as int;
        let _n = self.b.len();
        self.ws();
        let start = self.pos;
        proof {
            lemma_skip_ws(b0, p0);
        }
        let c = match self.peek() {
            Some(c) => c,
            None => return None,
        };
        if c == 0x7b {
            self.pos += 1;
            self.members(start, path, k)
        } else if c == 0x5b {
            self.pos += 1;
            self.items(start, path, k)
        } else if c == 0x22 {
            match self.string() {
                Some((s, e, _)) => {
                    proof {
                        lemma_string_rest(b0, s + 1);
                    }
                    if k == path.len() {
                        Some((s, e))
                    } else {
                        None
                    }
                },
                None => None,
            }
        } else {
            let ghost bref = self.b;
            proof {
                lemma_scalar_end(b0, start as int);
            }
            while self.pos < self.b.len() && !ends_scalar_byte(self.b[self.pos])
                invariant
                    self.b == bref,
                    bref@ == b0,
                    start <= self.pos <= b0.len(),
                    scalar_end(b0, self.pos as int) == scalar_end(b0, start as int),
                decreases b0.len() - self.pos,
            {
                self.pos += 1;
            }
            if self.pos == start {
                return None;
            }
            if k == path.len() {
                Some((start, self.pos))
            } else {
                None
            }
        }
    }

    /// The members of an object that opened at `start`.
    fn members(&mut self, start: usize, path: &[Step], k: usize) -> (r: Option<(usize, usize)>)
        requires
            start < old(self).pos <= old(self).b@.len(),
            k <= path@.len(),
        ensures
            final(self).b == old(self).b,
            final(self).pos <= final(self).b@.len(),
            match r {
                Some((s, e)) => scan_members(old(self).b@, old(self).pos as int, start as int, steps_view(path@), k as int)
                    == Some((s as int, e as int)) && start <= s < e <= old(self).b@.len()
                    && (k == path@.len() ==> final(self).pos == e),
                None => scan_members(old(self).b@, old(self).pos as int, start as int, steps_view(path@), k as int) is None,
            },
        decreases old(self).b@.len() - old(self).pos, 1int,
    {
        let ghost b0 = self.b@;
        let ghost bref = self.b;
        let ghost p0 = self.pos as int;
        let _n = self.b.len();
        let _m = path.len();
        loop
            invariant
                self.b == bref,
                old(self).b == bref,
                old(self).pos == p0,
                bref@ == b0,
                b0.len() <= usize::MAX,
                path@.len() <= usize::MAX,
                start < p0 <= self.pos <= b0.len(),
                k <= path@.len(),
                scan_members(b0, p0, start as int, steps_view(path@), k as int) == scan_members(
                    b0,
                    self.pos as int,
                    start as int,
                    steps_view(path@),
                    k as int,
                ),
            decreases b0.len() - self.pos,
        {
            let ghost lp = self.pos as int;
            self.ws();
            proof {
                lemma_skip_ws(b0, lp);
            }
            let d = match self.peek() {
                Some(d) => d,
                None => return None,
            };
            if d == 0x7d {
                self.pos += 1;
                if k == path.len() {
                    return Some((start, self.pos));
                } else {
                    return None;
                }
            } else if d == 0x2c {
                self.pos += 1;
                continue;
            } else if d != 0x22 {
                return None;
            }
            let (ks, _, key) = match self.string() {
                Some(t) => t,
                None => return None,
            };
            let ghost e = self.pos as int;
            proof {
                lemma_string_rest(b0, ks + 1);
            }
            self.ws();
            proof {
                lemma_skip_ws(b0, e);
            }
            let colon = match self.bump() {
                Some(x) => x,
                None => return None,
            };
            if colon != 0x3a {
                return None;
            }
            let matches = k < path.len() && match &path[k] {
                Step::Prop(p) => str_eq(p.as_str(), key.as_str()),
                Step::Index(_) => false,
            };
            assert(matches == (prop_target(steps_view(path@), k as int) == Some(key@)));
            if matches {
                return self.value(path, k + 1);
            }
            match self.value(path, path.len()) {
                Some(_) => {},
                None => return None,
            }
        }
    }

    /// The items of an array that opened at `start`.
    fn items(&mut self, start: usize, path: &[Step], k: usize) -> (r: Option<(usize, usize)>)
        requires
            start < old(self).pos <= old(self).b@.len(),
            k <= path@.len(),
        ensures
            final(self).b == old(self).b,
            final(self).pos <= final(self).b@.len(),
            match r {
                Some((s, e)) => scan_items(old(self).b@, old(self).pos as int, start as int, steps_view(path@), k as int, 0)
                    == Some((s as int, e as int)) && start <= s < e <= old(self).b@.len()
                    && (k == path@.len() ==> final(self).pos == e),
                None => scan_items(old(self).b@, old(self).pos as int, start as int, steps_view(path@), k as int, 0) is None,
            },
        decreases old(self).b@.len() - old(self).pos, 1int,
    {
        let ghost b0 = self.b@;
        let ghost bref = self.b;
        let ghost p0 = self.pos as int;
        let _n = self.b.len();
        let _m = path.len();
        let target = index_of(if k < path.len() {
            Some(&path[k])
        } else {
            None
        });
        let mut i: usize = 0;
        loop
            invariant
                self.b == bref,
                old(self).b == bref,
                old(self).pos == p0,
                bref@ == b0,
                b0.len() <= usize::MAX,
                path@.len() <= usize::MAX,
                start < p0 <= self.pos <= b0.len(),
                i <= self.pos,
                k <= path@.len(),
                target matches Some(t) ==> index_target(steps_view(path@), k as int) == Some(t as int),
                target is None ==> index_target(steps_view(path@), k as int) is None,
                scan_items(b0, p0, start as int, steps_view(path@), k as int, 0) == scan_items(
                    b0,
                    self.pos as int,
                    start as int,
                    steps_view(path@),
                    k as int,
                    i as int,
                ),
            decreases b0.len() - self.pos,
        {
            let ghost lp = self.pos as int;
            self.ws();
            proof {
                lemma_skip_ws(b0, lp);
            }
            let d = match self.peek() {
                Some(d) => d,
                None => return None,
            };
            if d == 0x5d {
                self.pos += 1;
                if k == path.len() {
                    return Some((start, self.pos));
                } else {
                    return None;
                }
            } else if d == 0x2c {
                self.pos += 1;
                continue;
            }
            let hit = match target {
                Some(t) => t == i,
                None => false,
            };
            if hit {
                assert(k < path@.len());
                return self.value(path, k + 1);
            }
            match self.value(path, path.len()) {
                Some(_) => {},
                None => return None,
            }
            i += 1;
        }
    }

    /// Find the key token `key` in the object at `parent`.
    fn key(&mut self, parent: &[Step], key: &str) -> (r: Option<(usize, usize)>)
        requires
            old(self).pos == 0,
        ensures
            match r {
                Some((s, e)) => located_key(old(self).b@, steps_view(parent@), key@) == Some((s as int, e as int))
                    && s < e,
                None => located_key(old(self).b@, steps_view(parent@), key@) is None,
            },
    {
        let ghost b0 = self.b@;
        let ghost bref = self.b;
        let _n = self.b.len();
        self.ws();
        if parent.len() > 0 {
            let (s, _) = match self.value(parent, 0) {
                Some(t) => t,
                None => return None,
            };
            self.pos = s;
        }
        let ghost p1 = self.pos as int;
        self.ws();
        proof {
            lemma_skip_ws(b0, p1);
        }
        let c = match self.peek() {
            Some(c) => c,
            None => return None,
        };
        if c != 0x7b {
            return None;
        }
        self.pos += 1;
        loop
            invariant
                self.b == bref,
                old(self).b == bref,
                bref@ == b0,
                b0.len() <= usize::MAX,
                self.pos <= b0.len(),
                located_key(b0, steps_view(parent@), key@) == scan_key_members(b0, self.pos as int, key@, steps_view(parent@)),
            decreases b0.len() - self.pos,
        {
            let ghost lp = self.pos as int;
            self.ws();
            proof {
                lemma_skip_ws(b0, lp);
            }
            let d = match self.peek() {
                Some(d) => d,
                None => return None,
            };
            if d == 0x7d {
                return None;
            } else if d == 0x2c {
                self.pos += 1;
                continue;
            } else if d != 0x22 {
                return None;
            }
            let (ks, ke, k) = match self.string() {
                Some(t) => t,
                None => return None,
            };
            let ghost e = self.pos as int;
            proof {
                lemma_string_rest(b0, ks + 1);
            }
            self.ws();
            proof {
                lemma_skip_ws(b0, e);
            }
            let colon = match self.bump() {
                Some(x) => x,
                None => return None,
            };
            if colon != 0x3a {
                return None;
            }
            if str_eq(k.as_str(), key) {
                return Some((ks, ke));
            }
            match self.value(parent, parent.len()) {
                Some(_) => {},
                None => return None,
            }
        }
    }
}

/// Locate the value at `path` and return its span in `src`: the whole
/// document when `path` is empty, `None` when the path does not resolve.
pub fn locate(src: &str, path: &[Step]) -> (r: Option<Span>)
    ensures
        r == as_span(located(vstd::utf8::encode_utf8(src@), steps_view(path@))),
{
    let mut sc = Scanner { b: src.as_bytes(), pos: 0 };
    sc.ws();
    match sc.value(path, 0) {
        Some((s, e)) => Some(Span::new(s, e - s)),
        None => None,
    }
}

/// Locate the key token of a property of the object at `parent`, rather
/// than its value: where a caret for an unexpected key belongs.
pub fn locate_key(src: &str, parent: &[Step], key: &str) -> (r: Option<Span>)
    ensures
        r == as_span(located_key(vstd::utf8::encode_utf8(src@), steps_view(parent@), key@)),
{
    let mut sc = Scanner { b: src.as_bytes(), pos: 0 };
    match sc.key(parent, key) {
        Some((s, e)) => Some(Span::new(s, e - s)),
        None => None,
    }
}

/// The index a pointer step names: an index step, or a property whose
/// name reads as an unsigned number.
fn index_of(step: Option<&Step>) -> (r: Option<usize>)
    ensures
        r == match step {
            Some(Step::Index(i)) => Some(*i),
            Some(Step::Prop(p)) => usize_of(p@),
            None => None,
        },
{
    match step {
        Some(Step::Index(i)) => Some(*i),
        Some(Step::Prop(p)) => parse_usize(p.as_str()),
        None => None,
    }
}

/// How many bytes a UTF-8 sequence that starts with `b` claims.
fn utf8_len(b: u8) -> (r: usize)
    ensures
        r as int == utf8_width(b),
        1 <= r <= 4,
{
    if b <= 0x7f {
        1
    } else if 0xc0 <= b && b <= 0xdf {
        2
    } else if 0xe0 <= b && b <= 0xef {
        3
    } else {
        4
    }
}

} // verus!
