use pipeshell::errors::ParseError;
use pipeshell::lexer::tokenize;

fn words(line: &str) -> Vec<String> {
    tokenize(line)
        .expect("line should tokenize")
        .into_iter()
        .map(|w| w.text)
        .collect()
}

fn err(line: &str) -> ParseError {
    tokenize(line).expect_err("line should not tokenize")
}

#[test]
fn double_quotes_group_a_word() {
    assert_eq!(words("echo \"a b\" c"), vec!["echo", "a b", "c"]);
}

#[test]
fn single_quoted_operators_are_literal() {
    assert_eq!(words("echo 'a|b'"), vec!["echo", "a|b"]);
}

#[test]
fn unterminated_double_quote_fails() {
    assert_eq!(err("echo \"a"), ParseError::UnterminatedQuote);
}

#[test]
fn unterminated_single_quote_fails() {
    assert_eq!(err("echo 'a"), ParseError::UnterminatedQuote);
}

#[test]
fn trailing_backslash_fails() {
    assert_eq!(err("echo a\\"), ParseError::UnterminatedEscape);
}

#[test]
fn backslash_inside_double_quotes_at_end_fails() {
    assert_eq!(err("echo \"a\\"), ParseError::UnterminatedEscape);
}

#[test]
fn empty_line_has_no_words() {
    assert_eq!(words(""), Vec::<String>::new());
    assert_eq!(words("   \t  "), Vec::<String>::new());
}

#[test]
fn whitespace_splits_words() {
    assert_eq!(words("a  b\tc"), vec!["a", "b", "c"]);
}

#[test]
fn empty_quotes_make_an_empty_word() {
    assert_eq!(words("a '' b"), vec!["a", "", "b"]);
}

#[test]
fn adjacent_quoted_pieces_join_into_one_word() {
    assert_eq!(words("a'b'\"c\"d"), vec!["abcd"]);
}

#[test]
fn backslash_escapes_a_space() {
    assert_eq!(words("a\\ b"), vec!["a b"]);
}

#[test]
fn backslash_escapes_a_quote() {
    assert_eq!(words("\\'a\\'"), vec!["'a'"]);
}

#[test]
fn single_quotes_keep_backslashes() {
    assert_eq!(words("'a\\b'"), vec!["a\\b"]);
}

#[test]
fn double_quote_escapes() {
    // \" \\ \$ \` collapse; any other backslash pair stays as written.
    assert_eq!(words("\"a\\\"b\""), vec!["a\"b"]);
    assert_eq!(words("\"a\\\\b\""), vec!["a\\b"]);
    assert_eq!(words("\"a\\$b\""), vec!["a$b"]);
    assert_eq!(words("\"a\\`b\""), vec!["a`b"]);
    assert_eq!(words("\"a\\xb\""), vec!["a\\xb"]);
}

#[test]
fn bare_words_are_marked_bare() {
    let ws = tokenize("echo hi > f").unwrap();
    assert!(ws.iter().all(|w| w.bare));
}

#[test]
fn quoting_or_escaping_marks_a_word_as_not_bare() {
    let ws = tokenize("echo '>' \">\" \\> a'b'").unwrap();
    assert!(ws[0].bare);
    assert_eq!(ws[1].text, ">");
    assert!(!ws[1].bare);
    assert_eq!(ws[2].text, ">");
    assert!(!ws[2].bare);
    assert_eq!(ws[3].text, ">");
    assert!(!ws[3].bare);
    assert_eq!(ws[4].text, "ab");
    assert!(!ws[4].bare);
}

#[test]
fn comment_runs_to_end_of_line() {
    assert_eq!(words("echo a # trailing words"), vec!["echo", "a"]);
}

#[test]
fn hash_inside_a_word_is_literal() {
    assert_eq!(words("echo a#b"), vec!["echo", "a#b"]);
}

#[test]
fn comment_ends_at_newline() {
    assert_eq!(words("a # b\nc"), vec!["a", "c"]);
}
