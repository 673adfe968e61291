//! Errors of the tokenizer.
use vstd::prelude::*;

use crate::outcome::Fault;
use crate::text::location_of;

verus! {

/// The low-level matcher that failed, for errors that no token names.
#[derive(Debug, Clone, Copy, PartialEq, Eq, Structural)]
pub enum NomErrorKind {
    /// An exact text was expected.
    Tag,
    /// A specific character was expected.
    Char,
    /// A line break was expected.
    CrLf,
    /// The end of the input was expected.
    Eof,
    /// A recognised text was rejected by a check on it.
    Verify,
    /// None of several alternatives matched.
    Alt,
}

/// An error that occurred during token parsing.
#[derive(Debug, Clone, Copy, PartialEq, Eq, Structural)]
pub struct TokenError {
    /// The specific kind of error that occurred.
    pub kind: TokenErrorKind,
    /// The byte offset in the source where the error occurred.
    pub offset: usize,
}

/// The different kinds of errors that can occur during token parsing.
#[derive(Debug, Clone, Copy, PartialEq, Eq, Structural)]
pub enum TokenErrorKind {
    /// Expected a specific token.
    Expect(ExpectKind),
    /// Incomplete input.
    Incomplete(IncompleteKind),
    /// A low-level matching error.
    NomError(NomErrorKind),
}

/// The different kinds of tokens that could have been expected.
#[derive(Debug, Clone, Copy, PartialEq, Eq, Structural)]
pub enum ExpectKind {
    /// Expected an end of line.
    EndOfLine,
    /// Expected an identifier.
    Identifier,
    /// Expected a keyword.
    Keyword(ExpectKeyword),
    /// Expected a label.
    Label,
    /// Expected a note.
    Note,
    /// Expected a number.
    Number,
    /// Expected a string.
    String,
    /// Expected a symbol.
    Symbol(ExpectSymbol),
    /// Expected a unit identifier.
    UnitIdentifier,
    /// Expected the unit one (`1`).
    UnitOne,
    /// Expected a render name (`{...}`).
    RenderName,
}

/// The different keywords that could have been expected.
#[derive(Debug, Clone, Copy, PartialEq, Eq, Structural)]
pub enum ExpectKeyword {
    /// Expected 'and' keyword
    And,
    /// Expected 'apply' keyword
    Apply,
    /// Expected 'as' keyword
    As,
    /// Expected 'design' keyword
    Design,
    /// Expected 'false' keyword
    False,
    /// Expected 'from' keyword
    From,
    /// Expected 'if' keyword
    If,
    /// Expected 'import' keyword
    Import,
    /// Expected 'not' keyword
    Not,
    /// Expected 'or' keyword
    Or,
    /// Expected 'ref' keyword
    Ref,
    /// Expected 'reference' keyword
    Reference,
    /// Expected 'section' keyword
    Section,
    /// Expected 'submodel' keyword
    Submodel,
    /// Expected 'test' keyword
    Test,
    /// Expected 'to' keyword
    To,
    /// Expected 'true' keyword
    True,
    /// Expected 'use' keyword
    Use,
    /// Expected 'with' keyword
    With,
}

/// The different symbols that could have been expected.
#[derive(Debug, Clone, Copy, PartialEq, Eq, Structural)]
pub enum ExpectSymbol {
    /// Expected '!=' symbol
    BangEquals,
    /// Expected '|' symbol
    Bar,
    /// Expected '{' symbol
    BraceLeft,
    /// Expected '}' symbol
    BraceRight,
    /// Expected '[' symbol
    BracketLeft,
    /// Expected ']' symbol
    BracketRight,
    /// Expected '^' symbol
    Caret,
    /// Expected ':' symbol
    Colon,
    /// Expected ',' symbol
    Comma,
    /// Expected '$' symbol
    Dollar,
    /// Expected '.' symbol
    Dot,
    /// Expected '..' symbol
    DotDot,
    /// Expected '=' symbol
    Equals,
    /// Expected '==' symbol
    EqualsEquals,
    /// Expected '>' symbol
    GreaterThan,
    /// Expected '>=' symbol
    GreaterThanEquals,
    /// Expected '<' symbol
    LessThan,
    /// Expected '<=' symbol
    LessThanEquals,
    /// Expected '-' symbol
    Minus,
    /// Expected '--' symbol
    MinusMinus,
    /// Expected '(' symbol
    ParenLeft,
    /// Expected ')' symbol
    ParenRight,
    /// Expected '%' symbol
    Percent,
    /// Expected '+' symbol
    Plus,
    /// Expected '*' symbol
    Star,
    /// Expected '**' symbol
    StarStar,
    /// Expected '/' symbol
    Slash,
    /// Expected '//' symbol
    SlashSlash,
}

/// The different kinds of incomplete input that a token can show.
#[derive(Debug, Clone, Copy, PartialEq, Eq, Structural)]
pub enum IncompleteKind {
    /// Unclosed note
    UnclosedNote {
        /// The offset of the note delimiter start
        delimiter_start_offset: usize,
        /// The offset of the note delimiter end
        delimiter_end_offset: usize,
    },
    /// Unclosed string
    UnclosedString {
        /// The offset of the opening quote
        open_quote_offset: usize,
    },
    /// Invalid decimal part in a number
    InvalidDecimalPart {
        /// The offset of the decimal point
        decimal_point_offset: usize,
    },
    /// Invalid exponent part in a number
    InvalidExponentPart {
        /// The offset of the exponent 'e' character
        e_offset: usize,
    },
    /// A multi-line note whose closing delimiter is followed by more text on
    /// its line
    InvalidClosingDelimiter,
    /// A render name whose `{` is not closed on its line
    UnclosedRenderName {
        /// The offset of the opening brace
        open_brace_offset: usize,
    },
}

/// The token error of kind `kind` at position `i` of `s`.
pub open spec fn error_at(s: Seq<char>, i: int, kind: TokenErrorKind) -> TokenError {
    TokenError { kind, offset: location_of(s, i).offset }
}

impl TokenError {
    /// Checks if the error is an expected-keyword error for `kind`.
    pub fn is_token_error(&self, kind: ExpectKeyword) -> (r: bool)
        ensures
            r == (self.kind == TokenErrorKind::Expect(ExpectKind::Keyword(kind))),
    {
        match self.kind {
            TokenErrorKind::Expect(ExpectKind::Keyword(k)) => k == kind,
            _ => false,
        }
    }

    /// Checks if the error is an expected-symbol error for `kind`.
    pub fn is_symbol_error(&self, kind: ExpectSymbol) -> (r: bool)
        ensures
            r == (self.kind == TokenErrorKind::Expect(ExpectKind::Symbol(kind))),
    {
        match self.kind {
            TokenErrorKind::Expect(ExpectKind::Symbol(k)) => k == kind,
            _ => false,
        }
    }

    /// This error with its kind replaced by `kind`; the offset stays.
    pub fn with_kind(self, kind: TokenErrorKind) -> (r: TokenError)
        ensures
            r == (TokenError { kind, offset: self.offset }),
    {
        TokenError { kind, offset: self.offset }
    }
    /// The low-level matching error `error`, reported as an expected end of line.
    pub fn expected_end_of_line(error: TokenError) -> (r: TokenError)
        requires
            error.kind is NomError,
        ensures
            r == (TokenError { kind: TokenErrorKind::Expect(ExpectKind::EndOfLine), offset: error.offset }),
    {
        TokenError { kind: TokenErrorKind::Expect(ExpectKind::EndOfLine), offset: error.offset }
    }

    /// The low-level matching error `error`, reported as an expected identifier.
    pub fn expected_identifier(error: TokenError) -> (r: TokenError)
        requires
            error.kind is NomError,
        ensures
            r == (TokenError { kind: TokenErrorKind::Expect(ExpectKind::Identifier), offset: error.offset }),
    {
        TokenError { kind: TokenErrorKind::Expect(ExpectKind::Identifier), offset: error.offset }
    }

    /// The low-level matching error `error`, reported as the expected keyword `keyword`.
    pub fn expected_keyword(keyword: ExpectKeyword, error: TokenError) -> (r: TokenError)
        requires
            error.kind is NomError,
        ensures
            r == (TokenError { kind: TokenErrorKind::Expect(ExpectKind::Keyword(keyword)), offset: error.offset }),
    {
        TokenError { kind: TokenErrorKind::Expect(ExpectKind::Keyword(keyword)), offset: error.offset }
    }

    /// The low-level matching error `error`, reported as an expected label.
    pub fn expected_label(error: TokenError) -> (r: TokenError)
        requires
            error.kind is NomError,
        ensures
            r == (TokenError { kind: TokenErrorKind::Expect(ExpectKind::Label), offset: error.offset }),
    {
        TokenError { kind: TokenErrorKind::Expect(ExpectKind::Label), offset: error.offset }
    }

    /// The low-level matching error `error`, reported as an expected note.
    pub fn expected_note(error: TokenError) -> (r: TokenError)
        requires
            error.kind is NomError,
        ensures
            r == (TokenError { kind: TokenErrorKind::Expect(ExpectKind::Note), offset: error.offset }),
    {
        TokenError { kind: TokenErrorKind::Expect(ExpectKind::Note), offset: error.offset }
    }

    /// The low-level matching error `error`, reported as an expected number.
    pub fn expected_number(error: TokenError) -> (r: TokenError)
        requires
            error.kind is NomError,
        ensures
            r == (TokenError { kind: TokenErrorKind::Expect(ExpectKind::Number), offset: error.offset }),
    {
        TokenError { kind: TokenErrorKind::Expect(ExpectKind::Number), offset: error.offset }
    }

    /// The low-level matching error `error`, reported as an expected string.
    pub fn expected_string(error: TokenError) -> (r: TokenError)
        requires
            error.kind is NomError,
        ensures
            r == (TokenError { kind: TokenErrorKind::Expect(ExpectKind::String), offset: error.offset }),
    {
        TokenError { kind: TokenErrorKind::Expect(ExpectKind::String), offset: error.offset }
    }

    /// The low-level matching error `error`, reported as the expected symbol `symbol`.
    pub fn expected_symbol(symbol: ExpectSymbol, error: TokenError) -> (r: TokenError)
        requires
            error.kind is NomError,
        ensures
            r == (TokenError { kind: TokenErrorKind::Expect(ExpectKind::Symbol(symbol)), offset: error.offset }),
    {
        TokenError { kind: TokenErrorKind::Expect(ExpectKind::Symbol(symbol)), offset: error.offset }
    }

    /// The low-level matching error `error`, reported as a note whose delimiter, from `delimiter_start_offset` to `delimiter_end_offset`, is not closed.
    pub fn unclosed_note(delimiter_start_offset: usize, delimiter_end_offset: usize, error: TokenError) -> (r: TokenError)
        requires
            error.kind is NomError,
        ensures
            r == (TokenError { kind: TokenErrorKind::Incomplete(IncompleteKind::UnclosedNote { delimiter_start_offset, delimiter_end_offset }), offset: error.offset }),
    {
        TokenError { kind: TokenErrorKind::Incomplete(IncompleteKind::UnclosedNote { delimiter_start_offset, delimiter_end_offset }), offset: error.offset }
    }

    /// The low-level matching error `error`, reported as a string whose quote at `open_quote_offset` is not closed.
    pub fn unclosed_string(open_quote_offset: usize, error: TokenError) -> (r: TokenError)
        requires
            error.kind is NomError,
        ensures
            r == (TokenError { kind: TokenErrorKind::Incomplete(IncompleteKind::UnclosedString { open_quote_offset }), offset: error.offset }),
    {
        TokenError { kind: TokenErrorKind::Incomplete(IncompleteKind::UnclosedString { open_quote_offset }), offset: error.offset }
    }

    /// The low-level matching error `error`, reported as a number whose decimal point at `decimal_point_offset` has no valid decimal part.
    pub fn invalid_decimal_part(decimal_point_offset: usize, error: TokenError) -> (r: TokenError)
        requires
            error.kind is NomError,
        ensures
            r == (TokenError { kind: TokenErrorKind::Incomplete(IncompleteKind::InvalidDecimalPart { decimal_point_offset }), offset: error.offset }),
    {
        TokenError { kind: TokenErrorKind::Incomplete(IncompleteKind::InvalidDecimalPart { decimal_point_offset }), offset: error.offset }
    }

    /// The low-level matching error `error`, reported as a number whose `e` at `e_offset` has no valid exponent.
    pub fn invalid_exponent_part(e_offset: usize, error: TokenError) -> (r: TokenError)
        requires
            error.kind is NomError,
        ensures
            r == (TokenError { kind: TokenErrorKind::Incomplete(IncompleteKind::InvalidExponentPart { e_offset }), offset: error.offset }),
    {
        TokenError { kind: TokenErrorKind::Incomplete(IncompleteKind::InvalidExponentPart { e_offset }), offset: error.offset }
    }

    /// An expected note at the byte offset `offset`.
    pub fn expected_note_from_span(offset: usize) -> (r: TokenError)
        ensures
            r == (TokenError { kind: TokenErrorKind::Expect(ExpectKind::Note), offset }),
    {
        TokenError { kind: TokenErrorKind::Expect(ExpectKind::Note), offset }
    }
}

/// Replaces the kind of a recoverable error, leaving failures as they are.
pub open spec fn convert_error(f: Fault<TokenError>, kind: TokenErrorKind) -> Fault<TokenError> {
    match f {
        Fault::Error(e) => Fault::Error(TokenError { kind, offset: e.offset }),
        Fault::Failure(e) => Fault::Failure(e),
    }
}

/// Turns a recoverable error into a failure of kind `kind`, leaving failures
/// as they are.
pub open spec fn fail_with(f: Fault<TokenError>, kind: TokenErrorKind) -> Fault<TokenError> {
    match f {
        Fault::Error(e) => Fault::Failure(TokenError { kind, offset: e.offset }),
        Fault::Failure(e) => Fault::Failure(e),
    }
}

} // verus!
