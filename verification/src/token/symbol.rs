//! Parsers for the symbols of the Oneil language.
use vstd::prelude::*;

use crate::outcome::{Fault, PResult};
use crate::text::Input;
use crate::token::error::{error_at, ExpectKind, ExpectSymbol, TokenError, TokenErrorKind};
use crate::token::util::{make_token, token_outcome, Token};

verus! {

/// The text of a symbol.
pub open spec fn symbol_text(k: ExpectSymbol) -> Seq<char> {
    match k {
        ExpectSymbol::BangEquals => seq!['!', '='],
        ExpectSymbol::Bar => seq!['|'],
        ExpectSymbol::BraceLeft => seq!['{'],
        ExpectSymbol::BraceRight => seq!['}'],
        ExpectSymbol::BracketLeft => seq!['['],
        ExpectSymbol::BracketRight => seq![']'],
        ExpectSymbol::Caret => seq!['^'],
        ExpectSymbol::Colon => seq![':'],
        ExpectSymbol::Comma => seq![','],
        ExpectSymbol::Dollar => seq!['$'],
        ExpectSymbol::Dot => seq!['.'],
        ExpectSymbol::DotDot => seq!['.', '.'],
        ExpectSymbol::Equals => seq!['='],
        ExpectSymbol::EqualsEquals => seq!['=', '='],
        ExpectSymbol::GreaterThan => seq!['>'],
        ExpectSymbol::GreaterThanEquals => seq!['>', '='],
        ExpectSymbol::LessThan => seq!['<'],
        ExpectSymbol::LessThanEquals => seq!['<', '='],
        ExpectSymbol::Minus => seq!['-'],
        ExpectSymbol::MinusMinus => seq!['-', '-'],
        ExpectSymbol::ParenLeft => seq!['('],
        ExpectSymbol::ParenRight => seq![')'],
        ExpectSymbol::Percent => seq!['%'],
        ExpectSymbol::Plus => seq!['+'],
        ExpectSymbol::Star => seq!['*'],
        ExpectSymbol::StarStar => seq!['*', '*'],
        ExpectSymbol::Slash => seq!['/'],
        ExpectSymbol::SlashSlash => seq!['/', '/'],
    }
}

/// The character that must not follow a symbol, so that it is not read as
/// the first half of a longer one (`=` in `==`, `*` in `**`, ...).
pub open spec fn symbol_guard(k: ExpectSymbol) -> Option<char> {
    match k {
        ExpectSymbol::Dot => Some('.'),
        ExpectSymbol::Equals => Some('='),
        ExpectSymbol::GreaterThan => Some('='),
        ExpectSymbol::LessThan => Some('='),
        ExpectSymbol::Minus => Some('-'),
        ExpectSymbol::Star => Some('*'),
        ExpectSymbol::Slash => Some('/'),
        _ => None,
    }
}

/// `s` holds the text `t` at position `p`.
pub open spec fn starts_with_at(s: Seq<char>, p: int, t: Seq<char>) -> bool {
    0 <= p && p + t.len() <= s.len() && s.subrange(p, p + t.len()) == t
}

/// The end of the symbol `k` at position `p`, or the error that its parser
/// stops with.
pub open spec fn lex_symbol(s: Seq<char>, p: int, k: ExpectSymbol) -> Result<int, Fault<TokenError>> {
    let t = symbol_text(k);
    let e = p + t.len();
    let kind = TokenErrorKind::Expect(ExpectKind::Symbol(k));
    if !starts_with_at(s, p, t) {
        Err(Fault::Error(error_at(s, p, kind)))
    } else {
        match symbol_guard(k) {
            Some(g) => if e < s.len() && s[e] == g {
                Err(Fault::Error(error_at(s, e, kind)))
            } else {
                Ok(e)
            },
            None => Ok(e),
        }
    }
}

fn symbol_chars(k: ExpectSymbol) -> (r: (char, Option<char>, Option<char>))
    ensures
        r.1 is None ==> symbol_text(k) == seq![r.0],
        r.1 matches Some(c2) ==> symbol_text(k) == seq![r.0, c2],
        r.2 == symbol_guard(k),
{
    match k {
        ExpectSymbol::BangEquals => ('!', Some('='), None),
        ExpectSymbol::Bar => ('|', None, None),
        ExpectSymbol::BraceLeft => ('{', None, None),
        ExpectSymbol::BraceRight => ('}', None, None),
        ExpectSymbol::BracketLeft => ('[', None, None),
        ExpectSymbol::BracketRight => (']', None, None),
        ExpectSymbol::Caret => ('^', None, None),
        ExpectSymbol::Colon => (':', None, None),
        ExpectSymbol::Comma => (',', None, None),
        ExpectSymbol::Dollar => ('$', None, None),
        ExpectSymbol::Dot => ('.', None, Some('.')),
        ExpectSymbol::DotDot => ('.', Some('.'), None),
        ExpectSymbol::Equals => ('=', None, Some('=')),
        ExpectSymbol::EqualsEquals => ('=', Some('='), None),
        ExpectSymbol::GreaterThan => ('>', None, Some('=')),
        ExpectSymbol::GreaterThanEquals => ('>', Some('='), None),
        ExpectSymbol::LessThan => ('<', None, Some('=')),
        ExpectSymbol::LessThanEquals => ('<', Some('='), None),
        ExpectSymbol::Minus => ('-', None, Some('-')),
        ExpectSymbol::MinusMinus => ('-', Some('-'), None),
        ExpectSymbol::ParenLeft => ('(', None, None),
        ExpectSymbol::ParenRight => (')', None, None),
        ExpectSymbol::Percent => ('%', None, None),
        ExpectSymbol::Plus => ('+', None, None),
        ExpectSymbol::Star => ('*', None, Some('*')),
        ExpectSymbol::StarStar => ('*', Some('*'), None),
        ExpectSymbol::Slash => ('/', None, Some('/')),
        ExpectSymbol::SlashSlash => ('/', Some('/'), None),
    }
}

/// Parses the symbol `k` at `pos`, with the inline whitespace after it.
pub fn symbol(inp: &Input, pos: usize, k: ExpectSymbol) -> (r: PResult<Token, TokenError>)
    requires
        inp.wf(),
        pos <= inp.text().len(),
    ensures
        token_outcome(inp.text(), pos as int, lex_symbol(inp.text(), pos as int, k), r),
        r matches Ok((q, _)) ==> pos < q <= inp.text().len(),
{
    let ghost s = inp.text();
    let n = inp.len();
    let kind = TokenErrorKind::Expect(ExpectKind::Symbol(k));
    let (c1, c2, guard) = symbol_chars(k);
    if pos >= n || inp.char_at(pos) != c1 {
        assert(!starts_with_at(s, pos as int, symbol_text(k)) || symbol_text(k)[0] != c1) by {
            if starts_with_at(s, pos as int, symbol_text(k)) {
                assert(s.subrange(pos as int, pos + symbol_text(k).len())[0] == s[pos as int]);
            }
        }
        return Err(Fault::Error(TokenError { kind, offset: inp.location(pos).offset }));
    }
    let mut e = pos + 1;
    match c2 {
        Some(c) => {
            if e >= n || inp.char_at(e) != c {
                assert(!starts_with_at(s, pos as int, symbol_text(k))) by {
                    if starts_with_at(s, pos as int, symbol_text(k)) {
                        assert(s.subrange(pos as int, pos + 2)[1] == s[pos + 1]);
                    }
                }
                return Err(Fault::Error(TokenError { kind, offset: inp.location(pos).offset }));
            }
            e = e + 1;
            assert(s.subrange(pos as int, pos + 2) =~= symbol_text(k));
        },
        None => {
            assert(s.subrange(pos as int, pos + 1) =~= symbol_text(k));
        },
    }
    match guard {
        Some(g) => {
            if e < n && inp.char_at(e) == g {
                return Err(Fault::Error(TokenError { kind, offset: inp.location(e).offset }));
            }
        },
        None => {},
    }
    Ok(make_token(inp, pos, e))
}

/// Parses the '!=' symbol token.
pub fn bang_equals(inp: &Input, pos: usize) -> (r: PResult<Token, TokenError>)
    requires inp.wf(), pos <= inp.text().len(),
    ensures token_outcome(inp.text(), pos as int, lex_symbol(inp.text(), pos as int, ExpectSymbol::BangEquals), r),
{
    symbol(inp, pos, ExpectSymbol::BangEquals)
}

/// Parses the '|' symbol token.
pub fn bar(inp: &Input, pos: usize) -> (r: PResult<Token, TokenError>)
    requires inp.wf(), pos <= inp.text().len(),
    ensures token_outcome(inp.text(), pos as int, lex_symbol(inp.text(), pos as int, ExpectSymbol::Bar), r),
{
    symbol(inp, pos, ExpectSymbol::Bar)
}

/// Parses the '{' symbol token.
pub fn brace_left(inp: &Input, pos: usize) -> (r: PResult<Token, TokenError>)
    requires inp.wf(), pos <= inp.text().len(),
    ensures token_outcome(inp.text(), pos as int, lex_symbol(inp.text(), pos as int, ExpectSymbol::BraceLeft), r),
{
    symbol(inp, pos, ExpectSymbol::BraceLeft)
}

/// Parses the '}' symbol token.
pub fn brace_right(inp: &Input, pos: usize) -> (r: PResult<Token, TokenError>)
    requires inp.wf(), pos <= inp.text().len(),
    ensures token_outcome(inp.text(), pos as int, lex_symbol(inp.text(), pos as int, ExpectSymbol::BraceRight), r),
{
    symbol(inp, pos, ExpectSymbol::BraceRight)
}

/// Parses the '[' symbol token.
pub fn bracket_left(inp: &Input, pos: usize) -> (r: PResult<Token, TokenError>)
    requires inp.wf(), pos <= inp.text().len(),
    ensures token_outcome(inp.text(), pos as int, lex_symbol(inp.text(), pos as int, ExpectSymbol::BracketLeft), r),
{
    symbol(inp, pos, ExpectSymbol::BracketLeft)
}

/// Parses the ']' symbol token.
pub fn bracket_right(inp: &Input, pos: usize) -> (r: PResult<Token, TokenError>)
    requires inp.wf(), pos <= inp.text().len(),
    ensures token_outcome(inp.text(), pos as int, lex_symbol(inp.text(), pos as int, ExpectSymbol::BracketRight), r),
{
    symbol(inp, pos, ExpectSymbol::BracketRight)
}

/// Parses the '^' symbol token.
pub fn caret(inp: &Input, pos: usize) -> (r: PResult<Token, TokenError>)
    requires inp.wf(), pos <= inp.text().len(),
    ensures token_outcome(inp.text(), pos as int, lex_symbol(inp.text(), pos as int, ExpectSymbol::Caret), r),
{
    symbol(inp, pos, ExpectSymbol::Caret)
}

/// Parses the ':' symbol token.
pub fn colon(inp: &Input, pos: usize) -> (r: PResult<Token, TokenError>)
    requires inp.wf(), pos <= inp.text().len(),
    ensures token_outcome(inp.text(), pos as int, lex_symbol(inp.text(), pos as int, ExpectSymbol::Colon), r),
{
    symbol(inp, pos, ExpectSymbol::Colon)
}

/// Parses the ',' symbol token.
pub fn comma(inp: &Input, pos: usize) -> (r: PResult<Token, TokenError>)
    requires inp.wf(), pos <= inp.text().len(),
    ensures token_outcome(inp.text(), pos as int, lex_symbol(inp.text(), pos as int, ExpectSymbol::Comma), r),
{
    symbol(inp, pos, ExpectSymbol::Comma)
}

/// Parses the '$' symbol token.
pub fn dollar(inp: &Input, pos: usize) -> (r: PResult<Token, TokenError>)
    requires inp.wf(), pos <= inp.text().len(),
    ensures token_outcome(inp.text(), pos as int, lex_symbol(inp.text(), pos as int, ExpectSymbol::Dollar), r),
{
    symbol(inp, pos, ExpectSymbol::Dollar)
}

/// Parses the '.' (not followed by '.') symbol token.
pub fn dot(inp: &Input, pos: usize) -> (r: PResult<Token, TokenError>)
    requires inp.wf(), pos <= inp.text().len(),
    ensures token_outcome(inp.text(), pos as int, lex_symbol(inp.text(), pos as int, ExpectSymbol::Dot), r),
{
    symbol(inp, pos, ExpectSymbol::Dot)
}

/// Parses the '..' symbol token.
pub fn dot_dot(inp: &Input, pos: usize) -> (r: PResult<Token, TokenError>)
    requires inp.wf(), pos <= inp.text().len(),
    ensures token_outcome(inp.text(), pos as int, lex_symbol(inp.text(), pos as int, ExpectSymbol::DotDot), r),
{
    symbol(inp, pos, ExpectSymbol::DotDot)
}

/// Parses the '=' (not followed by '=') symbol token.
pub fn equals(inp: &Input, pos: usize) -> (r: PResult<Token, TokenError>)
    requires inp.wf(), pos <= inp.text().len(),
    ensures token_outcome(inp.text(), pos as int, lex_symbol(inp.text(), pos as int, ExpectSymbol::Equals), r),
{
    symbol(inp, pos, ExpectSymbol::Equals)
}

/// Parses the '==' symbol token.
pub fn equals_equals(inp: &Input, pos: usize) -> (r: PResult<Token, TokenError>)
    requires inp.wf(), pos <= inp.text().len(),
    ensures token_outcome(inp.text(), pos as int, lex_symbol(inp.text(), pos as int, ExpectSymbol::EqualsEquals), r),
{
    symbol(inp, pos, ExpectSymbol::EqualsEquals)
}

/// Parses the '>' (not followed by '=') symbol token.
pub fn greater_than(inp: &Input, pos: usize) -> (r: PResult<Token, TokenError>)
    requires inp.wf(), pos <= inp.text().len(),
    ensures token_outcome(inp.text(), pos as int, lex_symbol(inp.text(), pos as int, ExpectSymbol::GreaterThan), r),
{
    symbol(inp, pos, ExpectSymbol::GreaterThan)
}

/// Parses the '>=' symbol token.
pub fn greater_than_equals(inp: &Input, pos: usize) -> (r: PResult<Token, TokenError>)
    requires inp.wf(), pos <= inp.text().len(),
    ensures token_outcome(inp.text(), pos as int, lex_symbol(inp.text(), pos as int, ExpectSymbol::GreaterThanEquals), r),
{
    symbol(inp, pos, ExpectSymbol::GreaterThanEquals)
}

/// Parses the '<' (not followed by '=') symbol token.
pub fn less_than(inp: &Input, pos: usize) -> (r: PResult<Token, TokenError>)
    requires inp.wf(), pos <= inp.text().len(),
    ensures token_outcome(inp.text(), pos as int, lex_symbol(inp.text(), pos as int, ExpectSymbol::LessThan), r),
{
    symbol(inp, pos, ExpectSymbol::LessThan)
}

/// Parses the '<=' symbol token.
pub fn less_than_equals(inp: &Input, pos: usize) -> (r: PResult<Token, TokenError>)
    requires inp.wf(), pos <= inp.text().len(),
    ensures token_outcome(inp.text(), pos as int, lex_symbol(inp.text(), pos as int, ExpectSymbol::LessThanEquals), r),
{
    symbol(inp, pos, ExpectSymbol::LessThanEquals)
}

/// Parses the '-' (not followed by '-') symbol token.
pub fn minus(inp: &Input, pos: usize) -> (r: PResult<Token, TokenError>)
    requires inp.wf(), pos <= inp.text().len(),
    ensures token_outcome(inp.text(), pos as int, lex_symbol(inp.text(), pos as int, ExpectSymbol::Minus), r),
{
    symbol(inp, pos, ExpectSymbol::Minus)
}

/// Parses the '--' symbol token.
pub fn minus_minus(inp: &Input, pos: usize) -> (r: PResult<Token, TokenError>)
    requires inp.wf(), pos <= inp.text().len(),
    ensures token_outcome(inp.text(), pos as int, lex_symbol(inp.text(), pos as int, ExpectSymbol::MinusMinus), r),
{
    symbol(inp, pos, ExpectSymbol::MinusMinus)
}

/// Parses the '(' symbol token.
pub fn paren_left(inp: &Input, pos: usize) -> (r: PResult<Token, TokenError>)
    requires inp.wf(), pos <= inp.text().len(),
    ensures token_outcome(inp.text(), pos as int, lex_symbol(inp.text(), pos as int, ExpectSymbol::ParenLeft), r),
{
    symbol(inp, pos, ExpectSymbol::ParenLeft)
}

/// Parses the ')' symbol token.
pub fn paren_right(inp: &Input, pos: usize) -> (r: PResult<Token, TokenError>)
    requires inp.wf(), pos <= inp.text().len(),
    ensures token_outcome(inp.text(), pos as int, lex_symbol(inp.text(), pos as int, ExpectSymbol::ParenRight), r),
{
    symbol(inp, pos, ExpectSymbol::ParenRight)
}

/// Parses the '%' symbol token.
pub fn percent(inp: &Input, pos: usize) -> (r: PResult<Token, TokenError>)
    requires inp.wf(), pos <= inp.text().len(),
    ensures token_outcome(inp.text(), pos as int, lex_symbol(inp.text(), pos as int, ExpectSymbol::Percent), r),
{
    symbol(inp, pos, ExpectSymbol::Percent)
}

/// Parses the '+' symbol token.
pub fn plus(inp: &Input, pos: usize) -> (r: PResult<Token, TokenError>)
    requires inp.wf(), pos <= inp.text().len(),
    ensures token_outcome(inp.text(), pos as int, lex_symbol(inp.text(), pos as int, ExpectSymbol::Plus), r),
{
    symbol(inp, pos, ExpectSymbol::Plus)
}

/// Parses the '*' (not followed by '*') symbol token.
pub fn star(inp: &Input, pos: usize) -> (r: PResult<Token, TokenError>)
    requires inp.wf(), pos <= inp.text().len(),
    ensures token_outcome(inp.text(), pos as int, lex_symbol(inp.text(), pos as int, ExpectSymbol::Star), r),
{
    symbol(inp, pos, ExpectSymbol::Star)
}

/// Parses the '**' symbol token.
pub fn star_star(inp: &Input, pos: usize) -> (r: PResult<Token, TokenError>)
    requires inp.wf(), pos <= inp.text().len(),
    ensures token_outcome(inp.text(), pos as int, lex_symbol(inp.text(), pos as int, ExpectSymbol::StarStar), r),
{
    symbol(inp, pos, ExpectSymbol::StarStar)
}

/// Parses the '/' (not followed by '/') symbol token.
pub fn slash(inp: &Input, pos: usize) -> (r: PResult<Token, TokenError>)
    requires inp.wf(), pos <= inp.text().len(),
    ensures token_outcome(inp.text(), pos as int, lex_symbol(inp.text(), pos as int, ExpectSymbol::Slash), r),
{
    symbol(inp, pos, ExpectSymbol::Slash)
}

/// Parses the '//' symbol token.
pub fn slash_slash(inp: &Input, pos: usize) -> (r: PResult<Token, TokenError>)
    requires inp.wf(), pos <= inp.text().len(),
    ensures token_outcome(inp.text(), pos as int, lex_symbol(inp.text(), pos as int, ExpectSymbol::SlashSlash), r),
{
    symbol(inp, pos, ExpectSymbol::SlashSlash)
}

} // verus!
