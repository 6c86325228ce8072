//! The tokenizer: splits a raw command line into words under POSIX-style
//! quoting rules.
//!
//! Whitespace outside quotes separates words.  Single quotes make every
//! enclosed character literal.  Double quotes suppress word splitting and
//! keep a small set of backslash escapes.  An unquoted backslash escapes the
//! next character (a backslash-newline disappears), and an unquoted `#` that
//! starts a word begins a comment running to the end of the line.
//!
//! Each word also reports whether it was *bare* — written without any
//! quoting or escaping — since only bare words can act as pipe or
//! redirection operators; a quoted operator is literal text.
//!
//! The grammar is stated as a character-at-a-time state machine
//! ([`lex_step`]); [`tokenize`] is proved to compute exactly its result.

use vstd::prelude::*;

use crate::errors::ParseError;

verus! {

/// One word of a tokenized line: its text, and whether it was written
/// without any quoting or escaping.
#[derive(Debug)]
pub struct Word {
    pub text: String,
    pub bare: bool,
}

/// The mathematical value of a [`Word`].
pub struct WordView {
    pub text: Seq<char>,
    pub bare: bool,
}

impl View for Word {
    type V = WordView;

    open spec fn view(&self) -> WordView {
        WordView { text: self.text@, bare: self.bare }
    }
}

/// The word sequence a token vector stands for.
pub open spec fn words_view(ws: Seq<Word>) -> Seq<WordView> {
    ws.map_values(|w: Word| w@)
}

/// Where the tokenizer stands inside the line.
#[derive(Clone, Copy, Debug, PartialEq, Eq, Structural)]
pub enum LexMode {
    /// Between words, skipping whitespace.
    Between,
    /// Inside a comment, skipping up to the next newline.
    Comment,
    /// Inside a word, outside any quote.
    Word,
    /// Inside single quotes.
    Single,
    /// Inside double quotes.
    Double,
    /// Right after an unquoted backslash.
    Escape,
    /// Right after a backslash inside double quotes.
    DoubleEscape,
}

/// The whole tokenizer state: the words already produced, the word being
/// built with its bareness, and the mode.
pub struct LexState {
    pub words: Seq<WordView>,
    pub cur: Seq<char>,
    pub bare: bool,
    pub mode: LexMode,
}

/// The characters that separate words when unquoted.
pub open spec fn is_space(c: char) -> bool {
    c == ' ' || c == '\t' || c == '\n'
}

/// The state before any character is read.
pub open spec fn lex_init() -> LexState {
    LexState { words: Seq::empty(), cur: Seq::empty(), bare: true, mode: LexMode::Between }
}

/// One character of tokenization.
pub open spec fn lex_step(st: LexState, c: char) -> LexState {
    match st.mode {
        LexMode::Between => {
            if is_space(c) {
                st
            } else if c == '#' {
                LexState { words: st.words, cur: Seq::empty(), bare: true, mode: LexMode::Comment }
            } else if c == '\'' {
                LexState { words: st.words, cur: Seq::empty(), bare: false, mode: LexMode::Single }
            } else if c == '"' {
                LexState { words: st.words, cur: Seq::empty(), bare: false, mode: LexMode::Double }
            } else if c == '\\' {
                LexState { words: st.words, cur: Seq::empty(), bare: false, mode: LexMode::Escape }
            } else {
                LexState { words: st.words, cur: seq![c], bare: true, mode: LexMode::Word }
            }
        },
        LexMode::Comment => {
            if c == '\n' {
                LexState { words: st.words, cur: st.cur, bare: st.bare, mode: LexMode::Between }
            } else {
                st
            }
        },
        LexMode::Word => {
            if is_space(c) {
                LexState {
                    words: st.words.push(WordView { text: st.cur, bare: st.bare }),
                    cur: Seq::empty(),
                    bare: true,
                    mode: LexMode::Between,
                }
            } else if c == '\'' {
                LexState { words: st.words, cur: st.cur, bare: false, mode: LexMode::Single }
            } else if c == '"' {
                LexState { words: st.words, cur: st.cur, bare: false, mode: LexMode::Double }
            } else if c == '\\' {
                LexState { words: st.words, cur: st.cur, bare: false, mode: LexMode::Escape }
            } else {
                LexState {
                    words: st.words,
                    cur: st.cur.push(c),
                    bare: st.bare,
                    mode: LexMode::Word,
                }
            }
        },
        LexMode::Single => {
            if c == '\'' {
                LexState { words: st.words, cur: st.cur, bare: st.bare, mode: LexMode::Word }
            } else {
                LexState {
                    words: st.words,
                    cur: st.cur.push(c),
                    bare: st.bare,
                    mode: LexMode::Single,
                }
            }
        },
        LexMode::Double => {
            if c == '"' {
                LexState { words: st.words, cur: st.cur, bare: st.bare, mode: LexMode::Word }
            } else if c == '\\' {
                LexState { words: st.words, cur: st.cur, bare: st.bare, mode: LexMode::DoubleEscape }
            } else {
                LexState {
                    words: st.words,
                    cur: st.cur.push(c),
                    bare: st.bare,
                    mode: LexMode::Double,
                }
            }
        },
        LexMode::Escape => {
            if c == '\n' {
                LexState { words: st.words, cur: st.cur, bare: st.bare, mode: LexMode::Word }
            } else {
                LexState {
                    words: st.words,
                    cur: st.cur.push(c),
                    bare: st.bare,
                    mode: LexMode::Word,
                }
            }
        },
        LexMode::DoubleEscape => {
            if c == '$' || c == '`' || c == '"' || c == '\\' {
                LexState {
                    words: st.words,
                    cur: st.cur.push(c),
                    bare: st.bare,
                    mode: LexMode::Double,
                }
            } else if c == '\n' {
                LexState { words: st.words, cur: st.cur, bare: st.bare, mode: LexMode::Double }
            } else {
                LexState {
                    words: st.words,
                    cur: st.cur.push('\\').push(c),
                    bare: st.bare,
                    mode: LexMode::Double,
                }
            }
        },
    }
}

/// What the end of the line yields in each mode.
pub open spec fn lex_finish(st: LexState) -> Result<Seq<WordView>, ParseError> {
    match st.mode {
        LexMode::Between => Ok(st.words),
        LexMode::Comment => Ok(st.words),
        LexMode::Word => Ok(st.words.push(WordView { text: st.cur, bare: st.bare })),
        LexMode::Single => Err(ParseError::UnterminatedQuote),
        LexMode::Double => Err(ParseError::UnterminatedQuote),
        LexMode::Escape => Err(ParseError::UnterminatedEscape),
        LexMode::DoubleEscape => Err(ParseError::UnterminatedEscape),
    }
}

/// The state machine driven over a whole character sequence.
pub open spec fn lex_from(st: LexState, s: Seq<char>) -> LexState
    decreases s.len(),
{
    if s.len() == 0 {
        st
    } else {
        lex_from(lex_step(st, s.first()), s.drop_first())
    }
}

/// The word sequence a line tokenizes to, or the reason it cannot.
pub open spec fn spec_tokenize(s: Seq<char>) -> Result<Seq<WordView>, ParseError> {
    lex_finish(lex_from(lex_init(), s))
}

/// Extending the input by one character advances the machine by one step.
proof fn lemma_lex_from_snoc(st: LexState, s: Seq<char>, c: char)
    ensures
        lex_from(st, s.push(c)) == lex_step(lex_from(st, s), c),
    decreases s.len(),
{
    if s.len() == 0 {
        assert(s.push(c).first() == c);
        assert(s.push(c).drop_first() =~= Seq::<char>::empty());
        assert(lex_from(st, s.push(c)) == lex_from(lex_step(st, c), s.push(c).drop_first()));
        assert(lex_from(lex_step(st, c), s.push(c).drop_first()) == lex_step(st, c));
        assert(lex_from(st, s) == st);
    } else {
        assert(s.push(c).first() == s.first());
        assert(s.push(c).drop_first() =~= s.drop_first().push(c));
        lemma_lex_from_snoc(lex_step(st, s.first()), s.drop_first(), c);
        assert(lex_from(st, s.push(c)) == lex_from(
            lex_step(st, s.first()),
            s.drop_first().push(c),
        ));
        assert(lex_from(st, s) == lex_from(lex_step(st, s.first()), s.drop_first()));
    }
}

/// Splits a raw line into words, honoring the quoting rules, or reports why
/// the line cannot be tokenized.
pub fn tokenize(line: &str) -> (r: Result<Vec<Word>, ParseError>)
    ensures
        match r {
            Ok(words) => spec_tokenize(line@) == Ok::<Seq<WordView>, ParseError>(
                words_view(words@),
            ),
            Err(e) => spec_tokenize(line@) == Err::<Seq<WordView>, ParseError>(e),
        },
{
    let n = line.unicode_len();
    let mut words: Vec<Word> = Vec::new();
    let mut cur = String::new();
    let mut bare = true;
    let mut mode = LexMode::Between;
    let mut i: usize = 0;
    proof {
        assert(line@.take(0) =~= Seq::<char>::empty());
        assert(words_view(words@) =~= Seq::<WordView>::empty());
    }
    while i < n
        invariant
            i <= n,
            n == line@.len(),
            lex_from(lex_init(), line@.take(i as int)) == (LexState {
                words: words_view(words@),
                cur: cur@,
                bare: bare,
                mode: mode,
            }),
            mode == LexMode::Between || mode == LexMode::Comment ==> cur@.len() == 0,
        decreases n - i,
    {
        let ghost pre = LexState {
            words: words_view(words@),
            cur: cur@,
            bare: bare,
            mode: mode,
        };
        let c = line.get_char(i);
        match mode {
            LexMode::Between => {
                if c == ' ' || c == '\t' || c == '\n' {
                } else if c == '#' {
                    bare = true;
                    mode = LexMode::Comment;
                } else if c == '\'' {
                    bare = false;
                    mode = LexMode::Single;
                } else if c == '"' {
                    bare = false;
                    mode = LexMode::Double;
                } else if c == '\\' {
                    bare = false;
                    mode = LexMode::Escape;
                } else {
                    crate::text::push_char(&mut cur, c);
                    bare = true;
                    mode = LexMode::Word;
                    proof {
                        assert(cur@ =~= seq![c]);
                    }
                }
            },
            LexMode::Comment => {
                if c == '\n' {
                    mode = LexMode::Between;
                }
            },
            LexMode::Word => {
                if c == ' ' || c == '\t' || c == '\n' {
                    let ghost oldwords = words_view(words@);
                    let done = cur;
                    cur = String::new();
                    words.push(Word { text: done, bare });
                    bare = true;
                    mode = LexMode::Between;
                    proof {
                        assert(words_view(words@) =~= oldwords.push(
                            WordView { text: pre.cur, bare: pre.bare },
                        ));
                    }
                } else if c == '\'' {
                    bare = false;
                    mode = LexMode::Single;
                } else if c == '"' {
                    bare = false;
                    mode = LexMode::Double;
                } else if c == '\\' {
                    bare = false;
                    mode = LexMode::Escape;
                } else {
                    crate::text::push_char(&mut cur, c);
                }
            },
            LexMode::Single => {
                if c == '\'' {
                    mode = LexMode::Word;
                } else {
                    crate::text::push_char(&mut cur, c);
                }
            },
            LexMode::Double => {
                if c == '"' {
                    mode = LexMode::Word;
                } else if c == '\\' {
                    mode = LexMode::DoubleEscape;
                } else {
                    crate::text::push_char(&mut cur, c);
                }
            },
            LexMode::Escape => {
                if c != '\n' {
                    crate::text::push_char(&mut cur, c);
                }
                mode = LexMode::Word;
            },
            LexMode::DoubleEscape => {
                if c == '$' || c == '`' || c == '"' || c == '\\' {
                    crate::text::push_char(&mut cur, c);
                } else if c != '\n' {
                    crate::text::push_char(&mut cur, '\\');
                    crate::text::push_char(&mut cur, c);
                }
                mode = LexMode::Double;
            },
        }
        i = i + 1;
        proof {
            lemma_lex_from_snoc(lex_init(), line@.take(i - 1), line@[i - 1]);
            assert(line@.take(i as int) =~= line@.take(i - 1).push(line@[i - 1]));
            if pre.cur.len() == 0 {
                assert(pre.cur =~= Seq::<char>::empty());
            }
            assert(lex_step(pre, c) == (LexState {
                words: words_view(words@),
                cur: cur@,
                bare: bare,
                mode: mode,
            }));
        }
    }
    proof {
        assert(line@.take(n as int) =~= line@);
    }
    match mode {
        LexMode::Between => Ok(words),
        LexMode::Comment => Ok(words),
        LexMode::Word => {
            let ghost oldwords = words_view(words@);
            let ghost st = lex_from(lex_init(), line@);
            words.push(Word { text: cur, bare });
            proof {
                assert(words_view(words@) =~= oldwords.push(
                    WordView { text: st.cur, bare: st.bare },
                ));
            }
            Ok(words)
        },
        LexMode::Single => Err(ParseError::UnterminatedQuote),
        LexMode::Double => Err(ParseError::UnterminatedQuote),
        LexMode::Escape => Err(ParseError::UnterminatedEscape),
        LexMode::DoubleEscape => Err(ParseError::UnterminatedEscape),
    }
}

} // verus!
