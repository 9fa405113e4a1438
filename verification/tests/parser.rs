use vssh::command::ShellError;
use vssh::command::parse;
use vssh::command::tokenize;

fn bytes(s: &str) -> Vec<u8> {
    s.as_bytes().to_vec()
}

#[test]
fn tokenize_splits_on_whitespace_runs() {
    let toks = tokenize(&bytes("  echo   hi\tthere  "));
    assert_eq!(toks, vec![bytes("echo"), bytes("hi"), bytes("there")]);
}

#[test]
fn tokenize_empty_input_gives_no_tokens() {
    assert_eq!(tokenize(&bytes("")), Vec::<Vec<u8>>::new());
    assert_eq!(tokenize(&bytes(" \t \r\n ")), Vec::<Vec<u8>>::new());
}

#[test]
fn parse_simple_command() {
    let c = parse(&bytes("echo hi")).unwrap();
    assert_eq!(c.argv, vec![bytes("echo"), bytes("hi")]);
    assert!(c.input_redirect.is_none());
    assert!(c.output_redirect.is_none());
}

#[test]
fn parse_strips_both_redirects() {
    let c = parse(&bytes("sort < unsorted.txt > sorted.txt")).unwrap();
    assert_eq!(c.argv, vec![bytes("sort")]);
    assert_eq!(c.input_redirect, Some(bytes("unsorted.txt")));
    assert_eq!(c.output_redirect, Some(bytes("sorted.txt")));
}

#[test]
fn parse_operators_anywhere_in_stream() {
    let c = parse(&bytes("< in.txt cat -n > out.txt -b")).unwrap();
    assert_eq!(c.argv, vec![bytes("cat"), bytes("-n"), bytes("-b")]);
    assert_eq!(c.input_redirect, Some(bytes("in.txt")));
    assert_eq!(c.output_redirect, Some(bytes("out.txt")));
}

#[test]
fn parse_trailing_operator_stays_as_literal_argument() {
    let c = parse(&bytes("cat <")).unwrap();
    assert_eq!(c.argv, vec![bytes("cat"), bytes("<")]);
    assert!(c.input_redirect.is_none());

    let c = parse(&bytes("cat >")).unwrap();
    assert_eq!(c.argv, vec![bytes("cat"), bytes(">")]);
    assert!(c.output_redirect.is_none());
}

#[test]
fn parse_later_redirect_of_same_kind_wins() {
    let c = parse(&bytes("a < x < y")).unwrap();
    assert_eq!(c.argv, vec![bytes("a")]);
    assert_eq!(c.input_redirect, Some(bytes("y")));

    let c = parse(&bytes("a > x > y")).unwrap();
    assert_eq!(c.output_redirect, Some(bytes("y")));
}

#[test]
fn parse_operator_can_serve_as_a_filename() {
    let c = parse(&bytes("a > <")).unwrap();
    assert_eq!(c.argv, vec![bytes("a")]);
    assert_eq!(c.output_redirect, Some(bytes("<")));
}

#[test]
fn parse_empty_line_is_empty_command() {
    assert!(matches!(parse(&bytes("")), Err(ShellError::EmptyCommand)));
    assert!(matches!(parse(&bytes("   ")), Err(ShellError::EmptyCommand)));
}

#[test]
fn parse_stage_of_only_redirections_is_empty_command() {
    assert!(matches!(parse(&bytes("< x > y")), Err(ShellError::EmptyCommand)));
}
