//! The pipeline parser: consumes the tokenized words into an ordered list of
//! command stages, split on pipe boundaries, each with its arguments and
//! redirection targets.
//!
//! The grammar is a small state machine: in [`ParserMode::Normal`] the first
//! plain word names the stage, later plain words become arguments, and an
//! operator word either opens a redirection (moving to the matching
//! `Expect*Target` mode) or, for `|`, closes the stage.  In an `Expect*`
//! mode the next word must be a file name.  Operators are recognized only
//! when written as whole, unquoted words, so a quoted or escaped operator
//! stays literal.

use vstd::prelude::*;

use crate::errors::ParseError;
use crate::lexer::spec_tokenize;
use crate::lexer::tokenize;
use crate::lexer::words_view;
use crate::lexer::Word;
use crate::lexer::WordView;

verus! {

/// Which standard stream a redirection captures.
#[derive(Clone, Copy, Debug, PartialEq, Eq, Structural)]
pub enum RedirStream {
    Stdout,
    Stderr,
}

/// Whether the target file is truncated or appended to.
#[derive(Clone, Copy, Debug, PartialEq, Eq, Structural)]
pub enum RedirMode {
    Truncate,
    Append,
}

/// One redirection of a stage: the named stream must be connected to the
/// target file, opened with the named mode, instead of its default
/// pipe/terminal destination.
#[derive(Debug)]
pub struct RedirectionSpec {
    pub stream: RedirStream,
    pub mode: RedirMode,
    pub target: String,
}

/// The mathematical value of a [`RedirectionSpec`].
pub struct RedirView {
    pub stream: RedirStream,
    pub mode: RedirMode,
    pub target: Seq<char>,
}

impl View for RedirectionSpec {
    type V = RedirView;

    open spec fn view(&self) -> RedirView {
        RedirView { stream: self.stream, mode: self.mode, target: self.target@ }
    }
}

/// One pipeline stage: a command name, its arguments in order, and its
/// redirections in the order they were written.
#[derive(Debug)]
pub struct CommandSpec {
    pub name: String,
    pub args: Vec<String>,
    pub redirections: Vec<RedirectionSpec>,
}

/// The mathematical value of a [`CommandSpec`].
pub struct CommandView {
    pub name: Seq<char>,
    pub args: Seq<Seq<char>>,
    pub redirections: Seq<RedirView>,
}

impl View for CommandSpec {
    type V = CommandView;

    open spec fn view(&self) -> CommandView {
        CommandView {
            name: self.name@,
            args: self.args.deep_view(),
            redirections: self.redirections@.map_values(|r: RedirectionSpec| r@),
        }
    }
}

/// A parsed command line: a non-empty ordered sequence of stages, where each
/// stage's output feeds the next one unless redirected.
#[derive(Debug)]
pub struct Pipeline {
    pub stages: Vec<CommandSpec>,
}

impl View for Pipeline {
    type V = Seq<CommandView>;

    open spec fn view(&self) -> Seq<CommandView> {
        self.stages@.map_values(|c: CommandSpec| c@)
    }
}

/// The stage directs its standard output into a file.
pub open spec fn has_stdout_redir(c: CommandView) -> bool {
    exists|i: int|
        0 <= i < c.redirections.len() && c.redirections[i].stream == RedirStream::Stdout
}

/// The stage directs its standard error into a file.
pub open spec fn has_stderr_redir(c: CommandView) -> bool {
    exists|i: int|
        0 <= i < c.redirections.len() && c.redirections[i].stream == RedirStream::Stderr
}

/// The operator words of the grammar.
#[derive(Clone, Copy, Debug, PartialEq, Eq, Structural)]
pub enum Op {
    /// `|`: closes the current stage.
    Pipe,
    /// `>` or `1>`: stdout, truncate.
    StdoutTruncate,
    /// `2>`: stderr, truncate.
    StderrTruncate,
    /// `>>` or `1>>`: stdout, append.
    StdoutAppend,
    /// `2>>`: stderr, append.
    StderrAppend,
}

/// Classifies a word: an operator exactly when it is one of the seven
/// operator spellings, as a whole word.
pub open spec fn word_op(w: Seq<char>) -> Option<Op> {
    if w == seq!['|'] {
        Some(Op::Pipe)
    } else if w == seq!['>'] || w == seq!['1', '>'] {
        Some(Op::StdoutTruncate)
    } else if w == seq!['2', '>'] {
        Some(Op::StderrTruncate)
    } else if w == seq!['>', '>'] || w == seq!['1', '>', '>'] {
        Some(Op::StdoutAppend)
    } else if w == seq!['2', '>', '>'] {
        Some(Op::StderrAppend)
    } else {
        None
    }
}

/// Executable counterpart of [`word_op`].
pub fn classify_word(w: &String) -> (r: Option<Op>)
    ensures
        r == word_op(w@),
{
    proof {
        reveal_strlit("|");
        reveal_strlit(">");
        reveal_strlit("1>");
        reveal_strlit("2>");
        reveal_strlit(">>");
        reveal_strlit("1>>");
        reveal_strlit("2>>");
        assert("|"@ =~= seq!['|']);
        assert(">"@ =~= seq!['>']);
        assert("1>"@ =~= seq!['1', '>']);
        assert("2>"@ =~= seq!['2', '>']);
        assert(">>"@ =~= seq!['>', '>']);
        assert("1>>"@ =~= seq!['1', '>', '>']);
        assert("2>>"@ =~= seq!['2', '>', '>']);
    }
    if *w == String::from_str("|") {
        Some(Op::Pipe)
    } else if *w == String::from_str(">") || *w == String::from_str("1>") {
        Some(Op::StdoutTruncate)
    } else if *w == String::from_str("2>") {
        Some(Op::StderrTruncate)
    } else if *w == String::from_str(">>") || *w == String::from_str("1>>") {
        Some(Op::StdoutAppend)
    } else if *w == String::from_str("2>>") {
        Some(Op::StderrAppend)
    } else {
        None
    }
}

/// Where the parser stands: collecting bare words, or expecting the target
/// file of an opened redirection.
#[derive(Clone, Copy, Debug, PartialEq, Eq, Structural)]
pub enum ParserMode {
    Normal,
    ExpectStdoutTruncateTarget,
    ExpectStderrTruncateTarget,
    ExpectStdoutAppendTarget,
    ExpectStderrAppendTarget,
}

/// The whole parser state: closed stages, the stage being built, and the
/// mode.  An empty `name` means the current stage is still nameless.
pub struct ParseState {
    pub stages: Seq<CommandView>,
    pub name: Seq<char>,
    pub args: Seq<Seq<char>>,
    pub redirections: Seq<RedirView>,
    pub mode: ParserMode,
}

/// The state before any word is consumed.
pub open spec fn parse_init() -> ParseState {
    ParseState {
        stages: Seq::empty(),
        name: Seq::empty(),
        args: Seq::empty(),
        redirections: Seq::empty(),
        mode: ParserMode::Normal,
    }
}

/// The stage currently being built.
pub open spec fn current_stage(st: ParseState) -> CommandView {
    CommandView { name: st.name, args: st.args, redirections: st.redirections }
}

/// The stream and mode a target-expecting parser mode stands for.
pub open spec fn expected_redir(m: ParserMode, target: Seq<char>) -> RedirView {
    match m {
        ParserMode::ExpectStdoutTruncateTarget => RedirView {
            stream: RedirStream::Stdout,
            mode: RedirMode::Truncate,
            target: target,
        },
        ParserMode::ExpectStderrTruncateTarget => RedirView {
            stream: RedirStream::Stderr,
            mode: RedirMode::Truncate,
            target: target,
        },
        ParserMode::ExpectStdoutAppendTarget => RedirView {
            stream: RedirStream::Stdout,
            mode: RedirMode::Append,
            target: target,
        },
        _ => RedirView { stream: RedirStream::Stderr, mode: RedirMode::Append, target: target },
    }
}

/// The operator a word acts as: none at all unless the word was written
/// bare, without quoting or escaping.
pub open spec fn word_op_of(w: WordView) -> Option<Op> {
    if w.bare {
        word_op(w.text)
    } else {
        None
    }
}

/// One word of parsing.
pub open spec fn parse_step(st: ParseState, w: WordView) -> Result<ParseState, ParseError> {
    if st.mode == ParserMode::Normal {
        match word_op_of(w) {
            Some(Op::Pipe) => {
                if st.name.len() == 0 {
                    Err(ParseError::EmptyStage)
                } else {
                    Ok(
                        ParseState {
                            stages: st.stages.push(current_stage(st)),
                            name: Seq::empty(),
                            args: Seq::empty(),
                            redirections: Seq::empty(),
                            mode: ParserMode::Normal,
                        },
                    )
                }
            },
            Some(Op::StdoutTruncate) => Ok(
                ParseState { mode: ParserMode::ExpectStdoutTruncateTarget, ..st },
            ),
            Some(Op::StderrTruncate) => Ok(
                ParseState { mode: ParserMode::ExpectStderrTruncateTarget, ..st },
            ),
            Some(Op::StdoutAppend) => Ok(
                ParseState { mode: ParserMode::ExpectStdoutAppendTarget, ..st },
            ),
            Some(Op::StderrAppend) => Ok(
                ParseState { mode: ParserMode::ExpectStderrAppendTarget, ..st },
            ),
            None => {
                if st.name.len() == 0 {
                    Ok(ParseState { name: w.text, ..st })
                } else {
                    Ok(ParseState { args: st.args.push(w.text), ..st })
                }
            },
        }
    } else {
        if word_op_of(w) is Some {
            Err(ParseError::MissingRedirectionTarget)
        } else {
            Ok(
                ParseState {
                    redirections: st.redirections.push(expected_redir(st.mode, w.text)),
                    mode: ParserMode::Normal,
                    ..st
                },
            )
        }
    }
}

/// Quoted operators are literal: a word written with any quoting or
/// escaping never acts as a pipe or redirection operator, whatever its
/// text is — in collecting mode it becomes the stage name or an argument
/// exactly like any plain word.
pub proof fn lemma_quoted_operators_are_literal(st: ParseState, w: WordView)
    requires
        !w.bare,
        st.mode == ParserMode::Normal,
    ensures
        parse_step(st, w) == (if st.name.len() == 0 {
            Ok::<ParseState, ParseError>(ParseState { name: w.text, ..st })
        } else {
            Ok::<ParseState, ParseError>(ParseState { args: st.args.push(w.text), ..st })
        }),
{
}

/// The parser driven over a whole word sequence.
pub open spec fn parse_words(st: ParseState, ws: Seq<WordView>) -> Result<
    ParseState,
    ParseError,
>
    decreases ws.len(),
{
    if ws.len() == 0 {
        Ok(st)
    } else {
        match parse_step(st, ws.first()) {
            Ok(st2) => parse_words(st2, ws.drop_first()),
            Err(e) => Err(e),
        }
    }
}

/// What the end of the input yields: the line must not end inside a
/// redirection, and the last stage must have a name.
pub open spec fn parse_finish(st: ParseState) -> Result<Seq<CommandView>, ParseError> {
    if st.mode != ParserMode::Normal {
        Err(ParseError::MissingRedirectionTarget)
    } else if st.name.len() == 0 {
        Err(ParseError::EmptyStage)
    } else {
        Ok(st.stages.push(current_stage(st)))
    }
}

/// The pipeline a word sequence parses to, or the reason it cannot.
pub open spec fn spec_parse_tokens(ws: Seq<WordView>) -> Result<Seq<CommandView>, ParseError> {
    match parse_words(parse_init(), ws) {
        Ok(st) => parse_finish(st),
        Err(e) => Err(e),
    }
}

/// The pipeline a raw line parses to: tokenize, then parse.
pub open spec fn spec_parse_input(s: Seq<char>) -> Result<Seq<CommandView>, ParseError> {
    match spec_tokenize(s) {
        Ok(ws) => spec_parse_tokens(ws),
        Err(e) => Err(e),
    }
}

/// Every stage of a parsed pipeline has a non-empty name, and there is at
/// least one stage.
pub open spec fn wf_pipeline(p: Seq<CommandView>) -> bool {
    &&& p.len() > 0
    &&& forall|i: int| 0 <= i < p.len() ==> #[trigger] p[i].name.len() > 0
}

/// Consumes a token sequence into a pipeline, or reports the first grammar
/// error.  No stage of the result is nameless.
pub fn parse_tokens(tokens: &Vec<Word>) -> (r: Result<Pipeline, ParseError>)
    ensures
        match r {
            Ok(p) => spec_parse_tokens(words_view(tokens@)) == Ok::<
                Seq<CommandView>,
                ParseError,
            >(p@) && wf_pipeline(p@),
            Err(e) => spec_parse_tokens(words_view(tokens@)) == Err::<
                Seq<CommandView>,
                ParseError,
            >(e),
        },
{
    let ghost ws = words_view(tokens@);
    let mut stages: Vec<CommandSpec> = Vec::new();
    let mut name = String::new();
    let mut args: Vec<String> = Vec::new();
    let mut redirections: Vec<RedirectionSpec> = Vec::new();
    let mut mode = ParserMode::Normal;
    let mut i: usize = 0;
    proof {
        assert(ws.skip(0) =~= ws);
        assert(stages@.map_values(|c: CommandSpec| c@) =~= Seq::<CommandView>::empty());
        assert(args.deep_view() =~= Seq::<Seq<char>>::empty());
        assert(redirections@.map_values(|r: RedirectionSpec| r@) =~= Seq::<RedirView>::empty());
    }
    while i < tokens.len()
        invariant
            i <= tokens.len(),
            ws == words_view(tokens@),
            parse_words(parse_init(), ws) == parse_words(
                ParseState {
                    stages: stages@.map_values(|c: CommandSpec| c@),
                    name: name@,
                    args: args.deep_view(),
                    redirections: redirections@.map_values(|r: RedirectionSpec| r@),
                    mode: mode,
                },
                ws.skip(i as int),
            ),
            forall|k: int|
                0 <= k < stages@.len() ==> #[trigger] stages@[k]@.name.len() > 0,
        decreases tokens.len() - i,
    {
        let ghost pre = ParseState {
            stages: stages@.map_values(|c: CommandSpec| c@),
            name: name@,
            args: args.deep_view(),
            redirections: redirections@.map_values(|r: RedirectionSpec| r@),
            mode: mode,
        };
        proof {
            assert(ws.skip(i as int).first() == ws[i as int]);
            assert(ws.skip(i as int).drop_first() =~= ws.skip(i + 1));
            assert(ws[i as int] == tokens@[i as int]@);
        }
        let w = tokens[i].text.clone();
        let op = if tokens[i].bare {
            classify_word(&w)
        } else {
            None
        };
        match mode {
            ParserMode::Normal => {
                match op {
                    Some(Op::Pipe) => {
                        if name.as_str().is_empty() {
                            return Err(ParseError::EmptyStage);
                        }
                        let ghost oldstages = stages@.map_values(|c: CommandSpec| c@);
                        let stage = CommandSpec { name, args, redirections };
                        stages.push(stage);
                        name = String::new();
                        args = Vec::new();
                        redirections = Vec::new();
                        proof {
                            assert(stages@.map_values(|c: CommandSpec| c@) =~= oldstages.push(
                                current_stage(pre),
                            ));
                            assert(args.deep_view() =~= Seq::<Seq<char>>::empty());
                            assert(redirections@.map_values(|r: RedirectionSpec| r@)
                                =~= Seq::<RedirView>::empty());
                        }
                    },
                    Some(Op::StdoutTruncate) => {
                        mode = ParserMode::ExpectStdoutTruncateTarget;
                    },
                    Some(Op::StderrTruncate) => {
                        mode = ParserMode::ExpectStderrTruncateTarget;
                    },
                    Some(Op::StdoutAppend) => {
                        mode = ParserMode::ExpectStdoutAppendTarget;
                    },
                    Some(Op::StderrAppend) => {
                        mode = ParserMode::ExpectStderrAppendTarget;
                    },
                    None => {
                        if name.as_str().is_empty() {
                            name = w;
                        } else {
                            let ghost oldargs = args.deep_view();
                            args.push(w);
                            proof {
                                assert(args.deep_view() =~= oldargs.push(ws[i as int].text));
                            }
                        }
                    },
                }
            },
            _ => {
                if op.is_some() {
                    return Err(ParseError::MissingRedirectionTarget);
                }
                let stream = if mode == ParserMode::ExpectStderrTruncateTarget || mode
                    == ParserMode::ExpectStderrAppendTarget {
                    RedirStream::Stderr
                } else {
                    RedirStream::Stdout
                };
                let rmode = if mode == ParserMode::ExpectStdoutAppendTarget || mode
                    == ParserMode::ExpectStderrAppendTarget {
                    RedirMode::Append
                } else {
                    RedirMode::Truncate
                };
                let ghost oldredirs = redirections@.map_values(|r: RedirectionSpec| r@);
                redirections.push(RedirectionSpec { stream, mode: rmode, target: w });
                mode = ParserMode::Normal;
                proof {
                    assert(redirections@.map_values(|r: RedirectionSpec| r@) =~= oldredirs.push(
                        expected_redir(pre.mode, ws[i as int].text),
                    ));
                }
            },
        }
        i = i + 1;
    }
    proof {
        assert(ws.skip(tokens.len() as int) =~= Seq::<WordView>::empty());
    }
    if mode != ParserMode::Normal {
        return Err(ParseError::MissingRedirectionTarget);
    }
    if name.as_str().is_empty() {
        return Err(ParseError::EmptyStage);
    }
    let ghost oldstages = stages@.map_values(|c: CommandSpec| c@);
    let ghost last = CommandView {
        name: name@,
        args: args.deep_view(),
        redirections: redirections@.map_values(|r: RedirectionSpec| r@),
    };
    let stage = CommandSpec { name, args, redirections };
    stages.push(stage);
    let p = Pipeline { stages };
    proof {
        assert(p@ =~= oldstages.push(last));
    }
    Ok(p)
}

/// Turns a raw line into a pipeline: tokenize, then parse.  Fails, running
/// nothing, exactly when the line breaks the quoting or redirection grammar.
pub fn parse_input(input: &str) -> (r: Result<Pipeline, ParseError>)
    ensures
        match r {
            Ok(p) => spec_parse_input(input@) == Ok::<Seq<CommandView>, ParseError>(p@)
                && wf_pipeline(p@),
            Err(e) => spec_parse_input(input@) == Err::<Seq<CommandView>, ParseError>(e),
        },
{
    match tokenize(input) {
        Ok(words) => parse_tokens(&words),
        Err(e) => Err(e),
    }
}

} // verus!
