use gh_ship::suggest::{did_you_mean, span_of_substring, suggest};

#[test]
fn suggests_close_typos() {
    let cands = vec!["prepare-release", "publish-release", "docs"];
    assert_eq!(
        suggest("prepare-relase", &cands),
        Some("prepare-release".into())
    );
}

#[test]
fn returns_none_for_unrelated_input() {
    let cands = vec!["prepare-release", "publish-release"];
    assert_eq!(suggest("totally_different", &cands), None);
}

#[test]
fn did_you_mean_formats_hint() {
    let cands = vec!["release", "docs"];
    assert_eq!(
        did_you_mean("releas", &cands),
        Some("did you mean `release`?".into())
    );
}

#[test]
fn span_of_substring_finds_it() {
    let span = span_of_substring("workflows:\n  prepare: prepare-relase\n", "prepare-relase");
    let offset: usize = span.offset();
    let len = span.len();
    assert_eq!(len, "prepare-relase".len());
    assert!(offset > 0);
}

#[test]
fn span_of_substring_missing_is_empty() {
    let span = span_of_substring("hello", "world");
    assert_eq!(span.offset(), 0);
    assert_eq!(span.len(), 0);
}

#[test]
fn equally_close_candidates_resolve_to_the_last() {
    let cands = vec!["main", "main"];
    assert_eq!(suggest("main", &cands), Some("main".into()));
    assert_eq!(suggest("x", &Vec::<&str>::new()), None);
}

#[test]
fn span_of_substring_counts_bytes_and_ignores_an_empty_needle() {
    let span = span_of_substring("é: x", "x");
    assert_eq!((span.offset(), span.len()), (4, 1));
    let empty = span_of_substring("abc", "");
    assert_eq!((empty.offset(), empty.len()), (0, 0));
}
