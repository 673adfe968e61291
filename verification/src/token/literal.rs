//! Parsers for literal values in the Oneil language: numbers, strings and
//! the unit one.
use vstd::prelude::*;

use crate::chars::{ident_char, is_digit, is_ident_char};
use crate::outcome::{Fault, PResult};
use crate::text::{location_of, Input};
use crate::token::error::{
    error_at, ExpectKind, IncompleteKind, NomErrorKind, TokenError, TokenErrorKind,
};
use crate::token::symbol::starts_with_at;
use crate::token::util::{lemma_scan_while, make_token, scan_while, token_outcome, Token};

verus! {

/// The end of the run of ASCII digits that starts at `q`.
pub open spec fn digits_end(s: Seq<char>, q: int) -> int {
    scan_while(s, q, |c: char| is_digit(c))
}

/// `s` holds an ASCII digit at `q`.
pub open spec fn digit_at(s: Seq<char>, q: int) -> bool {
    0 <= q < s.len() && is_digit(s[q])
}

/// `s` holds the character `c` at `q`.
pub open spec fn char_is_at(s: Seq<char>, q: int, c: char) -> bool {
    0 <= q < s.len() && s[q] == c
}

/// The position after an optional sign at `p`.
pub open spec fn after_sign(s: Seq<char>, p: int) -> int {
    if char_is_at(s, p, '+') || char_is_at(s, p, '-') {
        p + 1
    } else {
        p
    }
}

/// The digits after the decimal point at `d`, or the failure for a decimal
/// point with no digits after it.
pub open spec fn lex_decimal_part(s: Seq<char>, d: int) -> Result<int, Fault<TokenError>> {
    if digit_at(s, d + 1) {
        Ok(digits_end(s, d + 1))
    } else {
        Err(
            Fault::Failure(
                error_at(
                    s,
                    d + 1,
                    TokenErrorKind::Incomplete(
                        IncompleteKind::InvalidDecimalPart {
                            decimal_point_offset: location_of(s, d).offset,
                        },
                    ),
                ),
            ),
        )
    }
}

/// The mantissa that starts at `q`: digits with an optional decimal part, or
/// a decimal part alone.
pub open spec fn lex_number_part(s: Seq<char>, q: int) -> Result<int, Fault<TokenError>> {
    if digit_at(s, q) {
        let d = digits_end(s, q);
        if char_is_at(s, d, '.') {
            lex_decimal_part(s, d)
        } else {
            Ok(d)
        }
    } else if char_is_at(s, q, '.') {
        lex_decimal_part(s, q)
    } else {
        Err(Fault::Error(error_at(s, q, TokenErrorKind::NomError(NomErrorKind::Tag))))
    }
}

/// An optional exponent at `n`: `e` or `E`, an optional sign, then digits.
pub open spec fn lex_exponent(s: Seq<char>, n: int) -> Result<int, Fault<TokenError>> {
    if char_is_at(s, n, 'e') || char_is_at(s, n, 'E') {
        let m = after_sign(s, n + 1);
        if digit_at(s, m) {
            Ok(digits_end(s, m))
        } else {
            Err(
                Fault::Failure(
                    error_at(
                        s,
                        m,
                        TokenErrorKind::Incomplete(
                            IncompleteKind::InvalidExponentPart {
                                e_offset: location_of(s, n).offset,
                            },
                        ),
                    ),
                ),
            )
        }
    } else {
        Ok(n)
    }
}

/// The text `inf`.
pub open spec fn inf_text() -> Seq<char> {
    seq!['i', 'n', 'f']
}

/// An optionally signed `inf` at `p` that is not followed by an identifier
/// character.
pub open spec fn lex_inf(s: Seq<char>, p: int) -> Result<int, Fault<TokenError>> {
    let q = after_sign(s, p);
    if !starts_with_at(s, q, inf_text()) {
        Err(Fault::Error(error_at(s, q, TokenErrorKind::NomError(NomErrorKind::Tag))))
    } else if q + 3 < s.len() && is_ident_char(s[q + 3]) {
        Err(Fault::Error(error_at(s, q + 3, TokenErrorKind::NomError(NomErrorKind::Eof))))
    } else {
        Ok(q + 3)
    }
}

/// The end of the number lexeme at `p`, or the fault of `number`.
pub open spec fn lex_number(s: Seq<char>, p: int) -> Result<int, Fault<TokenError>> {
    let q = after_sign(s, p);
    let a = match lex_number_part(s, q) {
        Ok(n) => lex_exponent(s, n),
        Err(f) => Err(f),
    };
    let r = match a {
        Err(Fault::Error(_)) => lex_inf(s, p),
        _ => a,
    };
    match r {
        Err(Fault::Error(e)) => Err(
            Fault::Error(
                TokenError { kind: TokenErrorKind::Expect(ExpectKind::Number), offset: e.offset },
            ),
        ),
        _ => r,
    }
}

/// Finds the end of the run of ASCII digits that starts at `q`.
pub fn scan_digits(inp: &Input, q: usize) -> (r: usize)
    requires
        inp.wf(),
        q <= inp.text().len(),
    ensures
        r == digits_end(inp.text(), q as int),
        q <= r <= inp.text().len(),
{
    let ghost s = inp.text();
    let n = inp.len();
    let mut e = q;
    proof {
        lemma_scan_while(s, q as int, |c: char| is_digit(c));
    }
    while e < n && '0' <= inp.char_at(e) && inp.char_at(e) <= '9'
        invariant
            inp.wf(),
            s == inp.text(),
            n == s.len(),
            q <= e <= n,
            scan_while(s, e as int, |c: char| is_digit(c)) == scan_while(
                s,
                q as int,
                |c: char| is_digit(c),
            ),
        decreases n - e,
    {
        e = e + 1;
    }
    e
}

fn is_char_at(inp: &Input, q: usize, c: char) -> (r: bool)
    requires
        q <= inp.text().len(),
    ensures
        r == char_is_at(inp.text(), q as int, c),
{
    q < inp.len() && inp.char_at(q) == c
}

fn is_digit_at(inp: &Input, q: usize) -> (r: bool)
    requires
        q <= inp.text().len(),
    ensures
        r == digit_at(inp.text(), q as int),
{
    q < inp.len() && '0' <= inp.char_at(q) && inp.char_at(q) <= '9'
}

fn decimal_part(inp: &Input, d: usize) -> (r: Result<usize, Fault<TokenError>>)
    requires
        inp.wf(),
        d < inp.text().len(),
    ensures
        r matches Ok(e) ==> lex_decimal_part(inp.text(), d as int) == Ok::<int, Fault<TokenError>>(
            e as int,
        ) && d < e <= inp.text().len(),
        r matches Err(f) ==> lex_decimal_part(inp.text(), d as int) == Err::<int, Fault<TokenError>>(
            f,
        ),
{
    proof {
        inp.lemma_len();
    }
    if is_digit_at(inp, d + 1) {
        Ok(scan_digits(inp, d + 1))
    } else {
        Err(
            Fault::Failure(
                TokenError {
                    kind: TokenErrorKind::Incomplete(
                        IncompleteKind::InvalidDecimalPart {
                            decimal_point_offset: inp.location(d).offset,
                        },
                    ),
                    offset: inp.location(d + 1).offset,
                },
            ),
        )
    }
}

fn number_part(inp: &Input, q: usize) -> (r: Result<usize, Fault<TokenError>>)
    requires
        inp.wf(),
        q <= inp.text().len(),
    ensures
        r matches Ok(e) ==> lex_number_part(inp.text(), q as int) == Ok::<int, Fault<TokenError>>(
            e as int,
        ) && q <= e <= inp.text().len(),
        r matches Err(f) ==> lex_number_part(inp.text(), q as int) == Err::<int, Fault<TokenError>>(
            f,
        ),
{
    if is_digit_at(inp, q) {
        let d = scan_digits(inp, q);
        if is_char_at(inp, d, '.') {
            decimal_part(inp, d)
        } else {
            Ok(d)
        }
    } else if is_char_at(inp, q, '.') {
        decimal_part(inp, q)
    } else {
        Err(
            Fault::Error(
                TokenError {
                    kind: TokenErrorKind::NomError(NomErrorKind::Tag),
                    offset: inp.location(q).offset,
                },
            ),
        )
    }
}

fn exponent(inp: &Input, m: usize) -> (r: Result<usize, Fault<TokenError>>)
    requires
        inp.wf(),
        m <= inp.text().len(),
    ensures
        r matches Ok(e) ==> lex_exponent(inp.text(), m as int) == Ok::<int, Fault<TokenError>>(
            e as int,
        ) && m <= e <= inp.text().len(),
        r matches Err(f) ==> lex_exponent(inp.text(), m as int) == Err::<int, Fault<TokenError>>(f),
{
    proof {
        inp.lemma_len();
    }
    if is_char_at(inp, m, 'e') || is_char_at(inp, m, 'E') {
        let m2 = if is_char_at(inp, m + 1, '+') || is_char_at(inp, m + 1, '-') {
            m + 2
        } else {
            m + 1
        };
        if is_digit_at(inp, m2) {
            Ok(scan_digits(inp, m2))
        } else {
            Err(
                Fault::Failure(
                    TokenError {
                        kind: TokenErrorKind::Incomplete(
                            IncompleteKind::InvalidExponentPart { e_offset: inp.location(m).offset },
                        ),
                        offset: inp.location(m2).offset,
                    },
                ),
            )
        }
    } else {
        Ok(m)
    }
}

fn inf_end(inp: &Input, p: usize) -> (r: Result<usize, Fault<TokenError>>)
    requires
        inp.wf(),
        p <= inp.text().len(),
    ensures
        r matches Ok(e) ==> lex_inf(inp.text(), p as int) == Ok::<int, Fault<TokenError>>(e as int)
            && p <= e <= inp.text().len(),
        r matches Err(f) ==> lex_inf(inp.text(), p as int) == Err::<int, Fault<TokenError>>(f),
{
    let ghost s = inp.text();
    let n = inp.len();
    let q = if is_char_at(inp, p, '+') || is_char_at(inp, p, '-') {
        p + 1
    } else {
        p
    };
    if n - q >= 3 && inp.char_at(q) == 'i' && inp.char_at(q + 1) == 'n' && inp.char_at(q + 2)
        == 'f' {
        assert(s.subrange(q as int, q + 3) =~= inf_text());
        if q + 3 < n && ident_char(inp.char_at(q + 3)) {
            Err(
                Fault::Error(
                    TokenError {
                        kind: TokenErrorKind::NomError(NomErrorKind::Eof),
                        offset: inp.location(q + 3).offset,
                    },
                ),
            )
        } else {
            Ok(q + 3)
        }
    } else {
        assert(!starts_with_at(s, q as int, inf_text())) by {
            if starts_with_at(s, q as int, inf_text()) {
                let t = s.subrange(q as int, q + 3);
                assert(t[0] == s[q as int] && t[1] == s[q + 1] && t[2] == s[q + 2]);
            }
        }
        Err(
            Fault::Error(
                TokenError {
                    kind: TokenErrorKind::NomError(NomErrorKind::Tag),
                    offset: inp.location(q).offset,
                },
            ),
        )
    }
}

fn number_end(inp: &Input, p: usize) -> (r: Result<usize, Fault<TokenError>>)
    requires
        inp.wf(),
        p <= inp.text().len(),
    ensures
        r matches Ok(e) ==> lex_number(inp.text(), p as int) == Ok::<int, Fault<TokenError>>(
            e as int,
        ) && p <= e <= inp.text().len(),
        r matches Err(f) ==> lex_number(inp.text(), p as int) == Err::<int, Fault<TokenError>>(f),
{
    proof {
        inp.lemma_len();
    }
    let q = if is_char_at(inp, p, '+') || is_char_at(inp, p, '-') {
        p + 1
    } else {
        p
    };
    let a = match number_part(inp, q) {
        Ok(m) => exponent(inp, m),
        Err(f) => Err(f),
    };
    let r = match a {
        Err(Fault::Error(_)) => inf_end(inp, p),
        _ => a,
    };
    match r {
        Err(Fault::Error(e)) => Err(
            Fault::Error(
                TokenError { kind: TokenErrorKind::Expect(ExpectKind::Number), offset: e.offset },
            ),
        ),
        _ => r,
    }
}

/// Parses a number literal: an optional sign, then digits with an optional
/// decimal part or a decimal part alone, then an optional exponent; or an
/// optionally signed `inf`.
pub fn number(inp: &Input, pos: usize) -> (r: PResult<Token, TokenError>)
    requires
        inp.wf(),
        pos <= inp.text().len(),
    ensures
        token_outcome(inp.text(), pos as int, lex_number(inp.text(), pos as int), r),
        r matches Ok((q, _)) ==> pos <= q <= inp.text().len(),
{
    match number_end(inp, pos) {
        Ok(e) => Ok(make_token(inp, pos, e)),
        Err(f) => Err(f),
    }
}

/// Characters of the contents of a string literal.
pub open spec fn is_string_char(c: char) -> bool {
    c != '\'' && c != '\n'
}

/// The end of the string literal lexeme at `p`, or the fault of `string`.
pub open spec fn lex_string(s: Seq<char>, p: int) -> Result<int, Fault<TokenError>> {
    if char_is_at(s, p, '\'') {
        let e = scan_while(s, p + 1, |c: char| is_string_char(c));
        if char_is_at(s, e, '\'') {
            Ok(e + 1)
        } else {
            Err(
                Fault::Failure(
                    error_at(
                        s,
                        e,
                        TokenErrorKind::Incomplete(
                            IncompleteKind::UnclosedString {
                                open_quote_offset: location_of(s, p).offset,
                            },
                        ),
                    ),
                ),
            )
        }
    } else {
        Err(Fault::Error(error_at(s, p, TokenErrorKind::Expect(ExpectKind::String))))
    }
}

/// Parses a string literal delimited by single quotes; it may hold any
/// character but a single quote or a line feed, and has no escapes.
pub fn string(inp: &Input, pos: usize) -> (r: PResult<Token, TokenError>)
    requires
        inp.wf(),
        pos <= inp.text().len(),
    ensures
        token_outcome(inp.text(), pos as int, lex_string(inp.text(), pos as int), r),
        r matches Ok((q, t)) ==> pos < q <= inp.text().len() && t.lexeme_str@.len() >= 2,
{
    let ghost s = inp.text();
    let n = inp.len();
    if !is_char_at(inp, pos, '\'') {
        return Err(
            Fault::Error(
                TokenError {
                    kind: TokenErrorKind::Expect(ExpectKind::String),
                    offset: inp.location(pos).offset,
                },
            ),
        );
    }
    let mut e = pos + 1;
    proof {
        lemma_scan_while(s, pos + 1, |c: char| is_string_char(c));
    }
    while e < n && inp.char_at(e) != '\'' && inp.char_at(e) != '\n'
        invariant
            inp.wf(),
            s == inp.text(),
            n == s.len(),
            pos < e <= n,
            scan_while(s, e as int, |c: char| is_string_char(c)) == scan_while(
                s,
                pos + 1,
                |c: char| is_string_char(c),
            ),
        decreases n - e,
    {
        e = e + 1;
    }
    if is_char_at(inp, e, '\'') {
        Ok(make_token(inp, pos, e + 1))
    } else {
        Err(
            Fault::Failure(
                TokenError {
                    kind: TokenErrorKind::Incomplete(
                        IncompleteKind::UnclosedString {
                            open_quote_offset: inp.location(pos).offset,
                        },
                    ),
                    offset: inp.location(e).offset,
                },
            ),
        )
    }
}

/// The end of the unit one lexeme at `p`, or the error of `unit_one`.
pub open spec fn lex_unit_one(s: Seq<char>, p: int) -> Result<int, Fault<TokenError>> {
    let kind = TokenErrorKind::Expect(ExpectKind::UnitOne);
    if !char_is_at(s, p, '1') {
        Err(Fault::Error(error_at(s, p, kind)))
    } else if digit_at(s, p + 1) {
        Err(Fault::Error(error_at(s, p + 1, kind)))
    } else {
        Ok(p + 1)
    }
}

/// Parses the unit one: a `1` that is not followed by another digit.
pub fn unit_one(inp: &Input, pos: usize) -> (r: PResult<Token, TokenError>)
    requires
        inp.wf(),
        pos <= inp.text().len(),
    ensures
        token_outcome(inp.text(), pos as int, lex_unit_one(inp.text(), pos as int), r),
        r matches Ok((q, _)) ==> pos < q <= inp.text().len(),
{
    let kind = TokenErrorKind::Expect(ExpectKind::UnitOne);
    proof {
        inp.lemma_len();
    }
    if !is_char_at(inp, pos, '1') {
        Err(Fault::Error(TokenError { kind, offset: inp.location(pos).offset }))
    } else if is_digit_at(inp, pos + 1) {
        Err(Fault::Error(TokenError { kind, offset: inp.location(pos + 1).offset }))
    } else {
        Ok(make_token(inp, pos, pos + 1))
    }
}

} // verus!
