//! "Did you mean?" suggestions and substring spans for diagnostics.
//!
//! A candidate is suggested when its Jaro–Winkler similarity to the input
//! is at least 0.8: close enough to catch `prepare-relase` for
//! `prepare-release` without flagging unrelated names. Similarities are
//! `f64` values in `[0, 1]`; they are compared here by their IEEE-754 bit
//! patterns, which order non-negative floats exactly as their values.

use vstd::prelude::*;

use crate::artifact::span::Span;
use crate::text::concat3;

verus! {

/// The bit pattern of the similarity threshold `0.8_f64`.
pub const SUGGEST_THRESHOLD_BITS: u64 = 0x3FE9_9999_9999_999A;

/// The bit pattern of `1.0_f64`, the largest similarity.
pub const ONE_BITS: u64 = 0x3FF0_0000_0000_0000;

/// The bit pattern of `strsim::jaro_winkler(a, b)`.
pub uninterp spec fn jaro_winkler_bits(a: Seq<char>, b: Seq<char>) -> u64;

/// `strsim::jaro_winkler(a, b)`, as the bit pattern of the `f64` it returns.
/// The crate documents the result as a similarity between 0 and 1.
#[verifier::external_body]
fn similarity_bits(a: &str, b: &str) -> (r: u64)
    ensures
        r == jaro_winkler_bits(a@, b@),
        r <= ONE_BITS,
{
    strsim::jaro_winkler(a, b).to_bits()
}

/// The index of the best candidate among `cands[..n]`: the last one with
/// the highest score at or above the threshold.
pub open spec fn best_index(input: Seq<char>, cands: Seq<Seq<char>>, n: int) -> Option<int>
    decreases n,
{
    if n <= 0 {
        None
    } else {
        let prev = best_index(input, cands, n - 1);
        let score = jaro_winkler_bits(input, cands[n - 1]);
        if score < SUGGEST_THRESHOLD_BITS {
            prev
        } else {
            match prev {
                Some(j) => if jaro_winkler_bits(input, cands[j]) <= score {
                    Some(n - 1)
                } else {
                    prev
                },
                None => Some(n - 1),
            }
        }
    }
}

pub open spec fn str_views(v: Seq<&str>) -> Seq<Seq<char>> {
    v.map_values(|s: &str| s@)
}

/// The candidate most similar to `input`, when one is similar enough.
pub open spec fn suggestion(input: Seq<char>, cands: Seq<Seq<char>>) -> Option<Seq<char>> {
    match best_index(input, cands, cands.len() as int) {
        Some(i) => Some(cands[i]),
        None => None,
    }
}

proof fn lemma_best_index_range(input: Seq<char>, cands: Seq<Seq<char>>, n: int)
    ensures
        best_index(input, cands, n) matches Some(i) ==> 0 <= i < n,
    decreases n,
{
    if n > 0 {
        lemma_best_index_range(input, cands, n - 1);
    }
}

/// What each candidate scores against `input`, and how the suggestion
/// relates to those scores: it reaches the threshold and no candidate
/// scores higher; there is none only when every candidate falls short.
pub open spec fn most_similar(input: Seq<char>, cands: Seq<Seq<char>>, r: Option<Seq<char>>) -> bool {
    match r {
        Some(s) => cands.contains(s) && jaro_winkler_bits(input, s) >= SUGGEST_THRESHOLD_BITS && forall|k: int|
            0 <= k < cands.len() ==> #[trigger] jaro_winkler_bits(input, cands[k]) <= jaro_winkler_bits(input, s),
        None => forall|k: int| 0 <= k < cands.len() ==> #[trigger] jaro_winkler_bits(input, cands[k]) < SUGGEST_THRESHOLD_BITS,
    }
}

proof fn lemma_best_index_is_best(input: Seq<char>, cands: Seq<Seq<char>>, n: int)
    requires
        0 <= n <= cands.len(),
    ensures
        match best_index(input, cands, n) {
            Some(i) => 0 <= i < n && jaro_winkler_bits(input, cands[i]) >= SUGGEST_THRESHOLD_BITS && forall|k: int|
                0 <= k < n ==> #[trigger] jaro_winkler_bits(input, cands[k]) <= jaro_winkler_bits(input, cands[i]),
            None => forall|k: int| 0 <= k < n ==> #[trigger] jaro_winkler_bits(input, cands[k]) < SUGGEST_THRESHOLD_BITS,
        },
    decreases n,
{
    if n > 0 {
        lemma_best_index_is_best(input, cands, n - 1);
    }
}

/// The suggestion is the most similar candidate: it scores at least the
/// threshold and no candidate scores higher; there is no suggestion only
/// when every candidate scores below the threshold.
pub proof fn lemma_suggestion_is_most_similar(input: Seq<char>, cands: Seq<Seq<char>>)
    ensures
        most_similar(input, cands, suggestion(input, cands)),
{
    lemma_best_index_is_best(input, cands, cands.len() as int);
    match best_index(input, cands, cands.len() as int) {
        Some(i) => {
            assert(cands.contains(cands[i]));
        },
        None => {},
    }
}

/// The single most similar candidate at or above the threshold; among
/// equally similar ones, the last.
pub fn suggest(input: &str, candidates: &[&str]) -> (r: Option<String>)
    ensures
        r matches Some(s) ==> str_views(candidates@).contains(s@),
        match r {
            Some(s) => suggestion(input@, str_views(candidates@)) == Some(s@),
            None => suggestion(input@, str_views(candidates@)) is None,
        },
        most_similar(input@, str_views(candidates@), match r {
            Some(s) => Some(s@),
            None => None,
        }),
{
    proof {
        lemma_suggestion_is_most_similar(input@, str_views(candidates@));
    }
    let ghost cs = str_views(candidates@);
    let mut best: Option<(usize, u64)> = None;
    let mut i: usize = 0;
    while i < candidates.len()
        invariant
            i <= candidates@.len(),
            cs == str_views(candidates@),
            match best {
                Some((j, score)) => best_index(input@, cs, i as int) == Some(j as int) && j < i
                    && score == jaro_winkler_bits(input@, cs[j as int]),
                None => best_index(input@, cs, i as int) is None,
            },
        decreases candidates.len() - i,
    {
        let score = similarity_bits(input, candidates[i]);
        assert(cs[i as int] == candidates@[i as int]@);
        if score >= SUGGEST_THRESHOLD_BITS {
            match best {
                Some((_, b)) => {
                    if b <= score {
                        best = Some((i, score));
                    }
                },
                None => {
                    best = Some((i, score));
                },
            }
        }
        i += 1;
    }
    match best {
        Some((j, _)) => {
            assert(cs[j as int] == candidates@[j as int]@);
            Some(crate::text::owned(candidates[j]))
        },
        None => None,
    }
}

/// A "did you mean `…`?" hint, or `None` when no candidate is close.
pub fn did_you_mean(input: &str, candidates: &[&str]) -> (r: Option<String>)
    ensures
        match suggestion(input@, str_views(candidates@)) {
            Some(s) => r matches Some(h) && h@ == "did you mean `"@ + s + "`?"@,
            None => r is None,
        },
{
    match suggest(input, candidates) {
        Some(s) => Some(concat3("did you mean `", s.as_str(), "`?")),
        None => None,
    }
}

/// `p` occurs in `s` at index `i`.
pub open spec fn occurs_at_bytes(s: Seq<u8>, p: Seq<u8>, i: int) -> bool {
    0 <= i && i + p.len() <= s.len() && s.subrange(i, i + p.len()) == p
}

/// The span of the first occurrence of `needle` in `haystack`, counted in
/// bytes of their UTF-8 encodings: empty at offset 0 when the needle is
/// empty or absent.
pub closed spec fn substring_span(haystack: Seq<u8>, needle: Seq<u8>) -> Span {
    if needle.len() == 0 || !(exists|i: int| occurs_at_bytes(haystack, needle, i)) {
        Span { offset: 0, len: 0 }
    } else {
        let i = choose|i: int|
            occurs_at_bytes(haystack, needle, i) && forall|j: int|
                0 <= j < i ==> !occurs_at_bytes(haystack, needle, j);
        Span { offset: i as usize, len: needle.len() as usize }
    }
}

proof fn lemma_first_occurrence(h: Seq<u8>, n: Seq<u8>, i: int)
    requires
        n.len() > 0,
        occurs_at_bytes(h, n, i),
        forall|j: int| 0 <= j < i ==> !occurs_at_bytes(h, n, j),
    ensures
        substring_span(h, n) == (Span { offset: i as usize, len: n.len() as usize }),
{
    let w = choose|w: int|
        occurs_at_bytes(h, n, w) && forall|j: int| 0 <= j < w ==> !occurs_at_bytes(h, n, j);
    assert(occurs_at_bytes(h, n, w));
    if w < i {
        assert(!occurs_at_bytes(h, n, w));
    } else if w > i {
        assert(!occurs_at_bytes(h, n, i));
    }
}

proof fn lemma_no_occurrence(h: Seq<u8>, n: Seq<u8>, i: int)
    requires
        n.len() > 0,
        i >= h.len(),
        forall|j: int| 0 <= j < i ==> !occurs_at_bytes(h, n, j),
    ensures
        substring_span(h, n) == (Span { offset: 0, len: 0 }),
{
    assert forall|j: int| !occurs_at_bytes(h, n, j) by {
        if 0 <= j < i {
        }
    }
}

/// Whether `p` occurs in `s` at byte index `i`.
fn bytes_match_at(s: &[u8], p: &[u8], i: usize) -> (r: bool)
    ensures
        r == occurs_at_bytes(s@, p@, i as int),
{
    if i > s.len() || p.len() > s.len() - i {
        return false;
    }
    let mut k: usize = 0;
    let sn = s.len();
    while k < p.len()
        invariant
            sn == s@.len(),
            i + p@.len() <= s@.len(),
            k <= p@.len(),
            forall|j: int| 0 <= j < k ==> s@[i + j] == p@[j],
        decreases p.len() - k,
    {
        if s[i + k] != p[k] {
            assert(s@.subrange(i as int, i + p@.len())[k as int] != p@[k as int]);
            return false;
        }
        k += 1;
    }
    assert(s@.subrange(i as int, i + p@.len()) =~= p@);
    true
}

/// Span the first occurrence of `needle` in `haystack`, in bytes; a
/// zero-length span at offset 0 when the needle is empty or missing.
pub fn span_of_substring(haystack: &str, needle: &str) -> (r: Span)
    ensures
        r == substring_span(vstd::utf8::encode_utf8(haystack@), vstd::utf8::encode_utf8(needle@)),
{
    let h = haystack.as_bytes();
    let n = needle.as_bytes();
    if n.len() == 0 {
        return Span::new(0, 0);
    }
    let mut i: usize = 0;
    while i < h.len()
        invariant
            forall|j: int| 0 <= j < i ==> !occurs_at_bytes(h@, n@, j),
            n@.len() > 0,
            h@ == vstd::utf8::encode_utf8(haystack@),
            n@ == vstd::utf8::encode_utf8(needle@),
        decreases h.len() - i,
    {
        if bytes_match_at(h, n, i) {
            proof {
                lemma_first_occurrence(h@, n@, i as int);
            }
            return Span::new(i, n.len());
        }
        i += 1;
    }
    proof {
        lemma_no_occurrence(h@, n@, i as int);
    }
    Span::new(0, 0)
}

} // verus!
