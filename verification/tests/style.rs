use gh_ship::style::{decide, Theme};

#[test]
fn plain_theme_returns_input_unchanged() {
    let t = Theme::plain();
    assert_eq!(t.dim("x"), "x");
    assert_eq!(t.success("ok"), "ok");
    assert_eq!(t.failure("nope"), "nope");
    assert_eq!(t.warning("careful"), "careful");
    assert_eq!(t.skipped("zzz"), "zzz");
    assert_eq!(t.subject("release/next"), "release/next");
    assert_eq!(t.url("https://example.com"), "https://example.com");
    assert!(!t.is_colored());
}

#[test]
fn colored_theme_wraps_with_ansi() {
    let t = Theme::colored();
    let s = t.success("ok");
    assert!(s.starts_with("\x1b["), "missing CSI: {s:?}");
    assert!(s.ends_with("\x1b[0m"), "missing reset: {s:?}");
    assert!(s.contains("ok"), "payload missing: {s:?}");
    assert!(t.is_colored());
}

#[test]
fn colored_helpers_use_distinct_codes() {
    let t = Theme::colored();
    assert_ne!(t.success("x"), t.failure("x"));
    assert_ne!(t.success("x"), t.warning("x"));
    assert_ne!(t.running("x"), t.url("x"));
    assert_ne!(t.dim("x"), t.subject("x"));
}

#[test]
fn colored_output_is_exactly_the_escape_sequences() {
    let t = Theme::colored();
    assert_eq!(t.success("ok"), "\x1b[32;1mok\x1b[0m");
    assert_eq!(t.dim("d"), "\x1b[2md\x1b[0m");
    assert_eq!(t.url("u"), "\x1b[34;4mu\x1b[0m");
    assert_eq!(t.warning("w"), "\x1b[33mw\x1b[0m");
}

/// Argument order is easy to get wrong with six positional parameters.
#[derive(Default)]
struct Env<'a> {
    no_color: Option<&'a str>,
    clicolor: Option<&'a str>,
    clicolor_force: Option<&'a str>,
    term: Option<&'a str>,
    github_actions: Option<&'a str>,
    tty: bool,
}

fn colour(env: Env) -> bool {
    decide(
        env.no_color,
        env.clicolor,
        env.clicolor_force,
        env.term,
        env.github_actions,
        env.tty,
    )
}

#[test]
fn github_actions_gets_colour_without_a_tty() {
    assert!(colour(Env {
        github_actions: Some("true"),
        ..Default::default()
    }));
}

#[test]
fn only_github_actions_set_to_true_counts() {
    for value in ["false", "", "1", "yes"] {
        assert!(
            !colour(Env {
                github_actions: Some(value),
                ..Default::default()
            }),
            "GITHUB_ACTIONS={value:?} should not imply a rendering terminal"
        );
    }
}

#[test]
fn no_color_beats_every_other_signal() {
    assert!(!colour(Env {
        no_color: Some("1"),
        clicolor_force: Some("1"),
        github_actions: Some("true"),
        tty: true,
        ..Default::default()
    }));
}

#[test]
fn an_empty_no_color_is_not_set() {
    assert!(colour(Env {
        no_color: Some(""),
        tty: true,
        ..Default::default()
    }));
}

#[test]
fn clicolor_force_enables_colour_without_a_tty() {
    assert!(colour(Env {
        clicolor_force: Some("1"),
        ..Default::default()
    }));
}

#[test]
fn clicolor_force_overrides_a_dumb_terminal() {
    assert!(colour(Env {
        clicolor_force: Some("1"),
        term: Some("dumb"),
        ..Default::default()
    }));
}

#[test]
fn clicolor_force_zero_does_not_force() {
    assert!(!colour(Env {
        clicolor_force: Some("0"),
        ..Default::default()
    }));
}

#[test]
fn clicolor_zero_disables_colour_even_on_a_terminal() {
    assert!(!colour(Env {
        clicolor: Some("0"),
        tty: true,
        ..Default::default()
    }));
}

#[test]
fn a_dumb_terminal_gets_no_colour() {
    assert!(!colour(Env {
        term: Some("dumb"),
        tty: true,
        ..Default::default()
    }));
    assert!(!colour(Env {
        term: Some("dumb"),
        github_actions: Some("true"),
        ..Default::default()
    }));
}

#[test]
fn falls_back_to_terminal_detection() {
    assert!(colour(Env {
        tty: true,
        ..Default::default()
    }));
    assert!(!colour(Env::default()), "a pipe with no hints stays plain");
}

#[test]
fn a_normal_terminal_is_unaffected_by_term() {
    assert!(colour(Env {
        term: Some("xterm-256color"),
        tty: true,
        ..Default::default()
    }));
}

#[test]
fn snapshots_stay_plain_when_the_suite_runs_in_actions() {
    assert!(!colour(Env {
        no_color: Some("1"),
        term: Some("dumb"),
        github_actions: Some("true"),
        ..Default::default()
    }));
}
