use gh_ship::artifact::span::{locate, locate_key, parse_pointer, Span, Step};

fn text(src: &str, span: Span) -> &str {
    &src[span.offset()..span.offset() + span.len()]
}

#[test]
fn parses_pointers() {
    assert_eq!(parse_pointer(""), vec![]);
    assert_eq!(parse_pointer("/tag"), vec![Step::Prop("tag".into())]);
    assert_eq!(
        parse_pointer("/release/notes"),
        vec![Step::Prop("release".into()), Step::Prop("notes".into())]
    );
    assert_eq!(
        parse_pointer("/a~1b"),
        vec![Step::Prop("a/b".into())],
        "~1 decodes to /"
    );
}

#[test]
fn locates_top_level_scalar() {
    let src = r#"{"schemaVersion": 1, "changed": true}"#;
    assert_eq!(
        text(src, locate(src, &parse_pointer("/changed")).unwrap()),
        "true"
    );
    assert_eq!(
        text(src, locate(src, &parse_pointer("/schemaVersion")).unwrap()),
        "1"
    );
}

#[test]
fn locates_nested_string_with_quotes() {
    let src = r#"{"release": {"name": "Big One", "notes": "a\nb"}}"#;
    assert_eq!(
        text(src, locate(src, &parse_pointer("/release/name")).unwrap()),
        r#""Big One""#
    );
    assert_eq!(
        text(src, locate(src, &parse_pointer("/release/notes")).unwrap()),
        r#""a\nb""#,
        "escapes must not shift the span"
    );
}

#[test]
fn locates_whole_object() {
    let src = r#"{"release": {"name": "x"}}"#;
    assert_eq!(
        text(src, locate(src, &parse_pointer("/release")).unwrap()),
        r#"{"name": "x"}"#
    );
    assert_eq!(text(src, locate(src, &[]).unwrap()), src);
}

#[test]
fn locates_array_items() {
    let src = r#"{"pull_request": {"labels": ["a", "bb", "ccc"]}}"#;
    let p = parse_pointer("/pull_request/labels/1");
    assert_eq!(text(src, locate(src, &p).unwrap()), r#""bb""#);
}

#[test]
fn locates_key_token() {
    let src = "{\n  \"changed\": true,\n  \"bogus\": 1\n}";
    assert_eq!(
        text(src, locate_key(src, &[], "bogus").unwrap()),
        r#""bogus""#
    );
}

#[test]
fn locates_key_in_nested_object() {
    let src = r#"{"release": {"name": "x", "nope": 1}}"#;
    let span = locate_key(src, &parse_pointer("/release"), "nope").unwrap();
    assert_eq!(text(src, span), r#""nope""#);
}

#[test]
fn missing_paths_return_none() {
    let src = r#"{"a": 1}"#;
    assert!(locate(src, &parse_pointer("/b")).is_none());
    assert!(locate(src, &parse_pointer("/a/b")).is_none());
    assert!(locate_key(src, &[], "zzz").is_none());
}

#[test]
fn handles_multiline_and_unicode() {
    let src = "{\n  \"tag\": \"v1.0.0\",\n  \"emoji\": \"🚀 ship\"\n}";
    assert_eq!(
        text(src, locate(src, &parse_pointer("/tag")).unwrap()),
        "\"v1.0.0\""
    );
    assert_eq!(
        text(src, locate(src, &parse_pointer("/emoji")).unwrap()),
        "\"🚀 ship\""
    );
}

#[test]
fn parse_pointer_keeps_the_root_pointer_and_decodes_tilde() {
    assert_eq!(parse_pointer("/"), vec![Step::Prop(String::new())]);
    assert_eq!(parse_pointer("/a~0b"), vec![Step::Prop("a~b".into())]);
    assert_eq!(parse_pointer("/a~01"), vec![Step::Prop("a~1".into())]);
}

#[test]
fn index_steps_and_unicode_escapes_in_keys() {
    let src = r#"{"caf\u00e9": [10, 20], "n": {"k": "v"}}"#;
    let p = vec![Step::Prop("café".into()), Step::Index(1)];
    assert_eq!(text(src, locate(src, &p).unwrap()), "20");
    assert!(locate(src, &[Step::Prop("n".into()), Step::Index(0)]).is_none());
}
