use command_runner::invocation::{is_blank, split_words, Invocation};
use command_runner::outcome::RunError;

#[test]
fn split_simple_command() {
    assert_eq!(split_words("echo hello"), vec!["echo".to_string(), "hello".to_string()]);
}

#[test]
fn split_collapses_runs_of_white_space() {
    assert_eq!(
        split_words("  ls \t -l\n  /tmp  "),
        vec!["ls".to_string(), "-l".to_string(), "/tmp".to_string()]
    );
}

#[test]
fn split_unicode_white_space() {
    assert_eq!(
        split_words("a\u{3000}b\u{a0}c\u{2009}d"),
        vec!["a".to_string(), "b".to_string(), "c".to_string(), "d".to_string()]
    );
}

#[test]
fn split_empty_and_blank() {
    assert!(split_words("").is_empty());
    assert!(split_words(" \t\n ").is_empty());
}

#[test]
fn split_keeps_quotes_literal() {
    assert_eq!(
        split_words("echo \"a b\""),
        vec!["echo".to_string(), "\"a".to_string(), "b\"".to_string()]
    );
}

#[test]
fn blank_matches_std() {
    for c in ['\t', '\n', '\u{b}', '\u{c}', '\r', ' ', '\u{85}', '\u{a0}', '\u{1680}', '\u{2000}', '\u{200a}', '\u{2028}', '\u{2029}', '\u{202f}', '\u{205f}', '\u{3000}', 'a', '0', '\u{200b}', '\u{180e}', '_'] {
        assert_eq!(is_blank(c), c.is_whitespace(), "{:?}", c);
    }
}

#[test]
fn parse_empty_command_is_invalid() {
    assert_eq!(Invocation::parse("", None), Err(RunError::InvalidCommand));
    assert_eq!(Invocation::parse("   ", None), Err(RunError::InvalidCommand));
}

#[test]
fn parse_program_args_and_directory() {
    let inv = Invocation::parse("sleep 5", Some("/tmp".to_string())).unwrap();
    assert_eq!(inv.program, "sleep");
    assert_eq!(inv.args, vec!["5".to_string()]);
    assert_eq!(inv.cwd, Some("/tmp".to_string()));
    let inv = Invocation::parse("echo test", None).unwrap();
    assert_eq!(inv.program, "echo");
    assert_eq!(inv.args, vec!["test".to_string()]);
    assert_eq!(inv.cwd, None);
}

#[test]
fn parse_single_word() {
    let inv = Invocation::parse("false", None).unwrap();
    assert_eq!(inv.program, "false");
    assert!(inv.args.is_empty());
}
