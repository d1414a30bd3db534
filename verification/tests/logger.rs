use gh_ship::logger::{
    action, detail, detail_url, duration, fail, nothing_to_release, ok, rule, skip, warn, Elapsed,
};
use gh_ship::style::Theme;

fn micros(n: u64) -> Elapsed {
    Elapsed::new(n / 1_000_000, ((n % 1_000_000) * 1000) as u32)
}

fn millis(n: u64) -> Elapsed {
    Elapsed::new(n / 1000, ((n % 1000) * 1_000_000) as u32)
}

#[test]
fn plain_output_has_no_escapes() {
    let t = Theme::plain();
    for s in [
        action(&t, "dispatching", "prepare-release"),
        ok(&t, "done"),
        fail(&t, "nope"),
        warn(&t, "careful"),
        skip(&t, "skipped"),
        detail(&t, "branch", "release/next"),
        detail_url(&t, "pr", "https://example.com/1"),
        rule(&t, "Pull Request"),
        nothing_to_release(&t),
    ] {
        assert!(!s.contains('\x1b'), "unexpected ANSI in plain mode: {s:?}");
    }
}

#[test]
fn markers_are_stable() {
    let t = Theme::plain();
    assert_eq!(action(&t, "dispatching", "wf"), "▶ dispatching wf");
    assert_eq!(ok(&t, "done"), "✔ done");
    assert_eq!(fail(&t, "nope"), "✘ nope");
    assert_eq!(warn(&t, "hmm"), "⚠ hmm");
    assert_eq!(skip(&t, "meh"), "- meh");
    assert_eq!(detail(&t, "branch", "main"), "  branch: main");
}

#[test]
fn durations_are_coarse_and_readable() {
    assert_eq!(duration(micros(10)), "<1ms");
    assert_eq!(duration(millis(250)), "250ms");
    assert_eq!(duration(millis(1500)), "1.50s");
    assert_eq!(duration(Elapsed::new(83, 0)), "1m 23s");
}

#[test]
fn rule_never_underflows() {
    let t = Theme::plain();
    let long = "x".repeat(200);
    let _ = rule(&t, &long);
}

#[test]
fn a_rule_bar_shrinks_as_the_label_grows() {
    let t = Theme::plain();
    let r = rule(&t, "PR");
    assert_eq!(r.chars().count(), 61);
    assert_eq!(rule(&t, "LONGER").chars().count(), 61);
    assert!(r.starts_with("── PR "));
    assert_eq!(rule(&t, &"x".repeat(57)), format!("── {} ", "x".repeat(57)));
    assert_eq!(duration(millis(1050)), "1.05s");
    assert_eq!(duration(Elapsed::new(60, 0)), "1m 0s");
}
