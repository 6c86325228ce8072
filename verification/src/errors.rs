//! The errors a command line can fail with before anything runs.

use vstd::prelude::*;

verus! {

/// Why a raw line was rejected.  A rejected line runs nothing: parsing is
/// completed (including the recording of every redirection target) before the
/// first stage starts.
#[derive(Clone, Copy, Debug, PartialEq, Eq, Structural)]
pub enum ParseError {
    /// A single or double quote was opened and never closed.
    UnterminatedQuote,
    /// The line ended right after an unescaped backslash.
    UnterminatedEscape,
    /// A redirection operator was not followed by a file name, either because
    /// another operator came next or because the line ended.
    MissingRedirectionTarget,
    /// A pipe boundary or the end of the line closed a stage that never
    /// received a command name.
    EmptyStage,
}

/// The wording of each parse failure.
pub open spec fn spec_parse_error_message(e: ParseError) -> Seq<char> {
    match e {
        ParseError::UnterminatedQuote => "unterminated quote"@,
        ParseError::UnterminatedEscape => "unterminated escape"@,
        ParseError::MissingRedirectionTarget => "missing redirection target"@,
        ParseError::EmptyStage => "empty pipeline stage"@,
    }
}

impl ParseError {
    /// The failure as readable text.
    pub fn message(&self) -> (r: String)
        ensures
            r@ == spec_parse_error_message(*self),
    {
        match self {
            ParseError::UnterminatedQuote => String::from_str("unterminated quote"),
            ParseError::UnterminatedEscape => String::from_str("unterminated escape"),
            ParseError::MissingRedirectionTarget => String::from_str(
                "missing redirection target",
            ),
            ParseError::EmptyStage => String::from_str("empty pipeline stage"),
        }
    }
}

} // verus!
