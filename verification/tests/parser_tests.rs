use pipeshell::errors::ParseError;
use pipeshell::parser::parse_input;
use pipeshell::parser::Pipeline;
use pipeshell::parser::RedirMode;
use pipeshell::parser::RedirStream;

fn pipeline(line: &str) -> Pipeline {
    parse_input(line).expect("line should parse")
}

fn err_of(line: &str) -> Result<(), ParseError> {
    parse_input(line).map(|_| ())
}

#[test]
fn one_stage_with_arguments() {
    let p = pipeline("echo hi there");
    assert_eq!(p.stages.len(), 1);
    assert_eq!(p.stages[0].name, "echo");
    assert_eq!(p.stages[0].args, vec!["hi", "there"]);
    assert!(p.stages[0].redirections.is_empty());
}

#[test]
fn stdout_truncate_redirection() {
    let p = pipeline("echo hi > out.txt");
    assert_eq!(p.stages.len(), 1);
    assert_eq!(p.stages[0].name, "echo");
    assert_eq!(p.stages[0].args, vec!["hi"]);
    assert_eq!(p.stages[0].redirections.len(), 1);
    let r = &p.stages[0].redirections[0];
    assert_eq!(r.stream, RedirStream::Stdout);
    assert_eq!(r.mode, RedirMode::Truncate);
    assert_eq!(r.target, "out.txt");
}

#[test]
fn stdout_append_redirection() {
    let p = pipeline("echo hi >> out.txt");
    let r = &p.stages[0].redirections[0];
    assert_eq!(r.stream, RedirStream::Stdout);
    assert_eq!(r.mode, RedirMode::Append);
    assert_eq!(r.target, "out.txt");
}

#[test]
fn explicit_stream_digits() {
    let p = pipeline("c 1> a 2> b 1>> d 2>> e");
    let r = &p.stages[0].redirections;
    assert_eq!(r.len(), 4);
    assert_eq!((r[0].stream, r[0].mode), (RedirStream::Stdout, RedirMode::Truncate));
    assert_eq!((r[1].stream, r[1].mode), (RedirStream::Stderr, RedirMode::Truncate));
    assert_eq!((r[2].stream, r[2].mode), (RedirStream::Stdout, RedirMode::Append));
    assert_eq!((r[3].stream, r[3].mode), (RedirStream::Stderr, RedirMode::Append));
    assert_eq!(r[1].target, "b");
}

#[test]
fn pipes_split_stages() {
    let p = pipeline("a one | b two | c");
    assert_eq!(p.stages.len(), 3);
    assert_eq!(p.stages[0].name, "a");
    assert_eq!(p.stages[1].name, "b");
    assert_eq!(p.stages[1].args, vec!["two"]);
    assert_eq!(p.stages[2].name, "c");
    assert!(p.stages[2].args.is_empty());
}

#[test]
fn quoted_pipe_is_an_argument() {
    let p = pipeline("echo 'a|b'");
    assert_eq!(p.stages.len(), 1);
    assert_eq!(p.stages[0].args, vec!["a|b"]);
}

#[test]
fn quoted_operator_word_is_an_argument() {
    let p = pipeline("echo '>' next");
    assert_eq!(p.stages.len(), 1);
    assert_eq!(p.stages[0].args, vec![">", "next"]);
    assert!(p.stages[0].redirections.is_empty());
}

#[test]
fn redirection_target_may_follow_in_a_later_position() {
    let p = pipeline("a > f | b");
    assert_eq!(p.stages.len(), 2);
    assert_eq!(p.stages[0].redirections[0].target, "f");
    assert!(p.stages[1].redirections.is_empty());
}

#[test]
fn an_operator_may_come_before_the_name() {
    let p = pipeline("> f echo hi");
    assert_eq!(p.stages.len(), 1);
    assert_eq!(p.stages[0].name, "echo");
    assert_eq!(p.stages[0].args, vec!["hi"]);
    assert_eq!(p.stages[0].redirections[0].target, "f");
}

#[test]
fn an_empty_word_never_names_a_stage() {
    let p = pipeline("'' echo hi");
    assert_eq!(p.stages.len(), 1);
    assert_eq!(p.stages[0].name, "echo");
    assert_eq!(p.stages[0].args, vec!["hi"]);
    assert_eq!(err_of("''"), Err(ParseError::EmptyStage));
}

#[test]
fn missing_target_at_end_of_line() {
    assert_eq!(err_of("echo >"), Err(ParseError::MissingRedirectionTarget));
}

#[test]
fn operator_as_redirection_target() {
    assert_eq!(err_of("echo > >"), Err(ParseError::MissingRedirectionTarget));
    assert_eq!(err_of("echo > | b"), Err(ParseError::MissingRedirectionTarget));
}

#[test]
fn empty_stage_before_pipe() {
    assert_eq!(err_of("| foo"), Err(ParseError::EmptyStage));
}

#[test]
fn empty_stage_between_pipes() {
    assert_eq!(err_of("a | | b"), Err(ParseError::EmptyStage));
}

#[test]
fn empty_stage_after_final_pipe() {
    assert_eq!(err_of("a |"), Err(ParseError::EmptyStage));
}

#[test]
fn empty_line_is_an_empty_stage() {
    assert_eq!(err_of(""), Err(ParseError::EmptyStage));
}

#[test]
fn unterminated_quote_fails_before_stage_checks() {
    assert_eq!(err_of("echo \"a | b"), Err(ParseError::UnterminatedQuote));
}
